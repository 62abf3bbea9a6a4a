//! Reading message objects and fetch options out of guest values, and writing message
//! objects back as guest values. Every read tolerates an absent property; a property that is
//! present with the wrong shape is reported, never trusted.

use vstd::prelude::*;
use crate::assoc::{put, Pairs};
use crate::entity::{HttpObjectModel, JsHttpObject};
use crate::error::ShapeError;
use crate::headers::JsHeaders;
use crate::value::{find_property, property, GuestProperty, GuestValue};

verus! {

/// What guest code reads from property `name`: its value, or `undefined` where absent.
pub open spec fn field(props: Seq<GuestProperty>, name: Seq<char>) -> GuestValue {
    match property(props, name) {
        Some(v) => v,
        None => GuestValue::Undefined,
    }
}

/// The status that a `status` property denotes: a 32-bit integer cut to 16 bits, and 0 for
/// anything else.
pub open spec fn read_status(v: GuestValue) -> u16 {
    match v {
        GuestValue::Int(n) => n as u16,
        _ => 0,
    }
}

/// The text that a property denotes: `default` where absent, `None` where it is not a string.
pub open spec fn read_text(v: GuestValue, default: Seq<char>) -> Option<Seq<char>> {
    match v {
        GuestValue::Undefined => Some(default),
        GuestValue::Text(s) => Some(s@),
        _ => None,
    }
}

/// The headers that the properties of a guest `headers` object denote, in order, a later
/// property of a name replacing an earlier one. `None` where some value is not a string.
pub open spec fn text_pairs(props: Seq<GuestProperty>) -> Option<Pairs<Seq<char>>>
    decreases props.len(),
{
    if props.len() == 0 {
        Some(Seq::empty())
    } else {
        match (text_pairs(props.drop_last()), props.last().value) {
            (Some(acc), GuestValue::Text(s)) => Some(put(acc, props.last().name@, s@)),
            _ => None,
        }
    }
}

/// The headers that a `headers` property denotes.
pub open spec fn read_headers(v: GuestValue) -> Result<Pairs<Seq<char>>, ShapeError> {
    match v {
        GuestValue::Object(props) => match text_pairs(props@) {
            Some(h) => Ok(h),
            None => Err(ShapeError::HeaderValueNotText),
        },
        _ => Err(ShapeError::HeadersNotObject),
    }
}

/// The handle that a `body_handle` property denotes: 0 where absent, the integer's 32 bits
/// read as unsigned, `None` for anything else.
pub open spec fn read_handle(v: GuestValue) -> Option<u32> {
    match v {
        GuestValue::Undefined => Some(0),
        GuestValue::Int(n) => Some(n as u32),
        _ => None,
    }
}

/// The payload that a `body` property denotes: absent where the property is absent or the
/// buffer is empty; the outer `None` where the property is not an array buffer.
pub open spec fn read_payload(v: GuestValue) -> Option<Option<Seq<u8>>> {
    match v {
        GuestValue::Undefined => Some(None),
        GuestValue::Bytes(b) => Some(
            if b@.len() == 0 {
                None
            } else {
                Some(b@)
            },
        ),
        _ => None,
    }
}

/// The message object that a guest value denotes, or the first violation met when reading
/// `status`, `method`, `uri`, `headers`, `body_handle` and `body` in that order.
pub open spec fn decode_http_object(v: GuestValue) -> Result<HttpObjectModel, ShapeError> {
    match v {
        GuestValue::Object(props) => {
            let p = props@;
            let status = read_status(field(p, "status"@));
            match read_text(field(p, "method"@), "GET"@) {
                None => Err(ShapeError::MethodNotText),
                Some(method) => match read_text(field(p, "uri"@), "/"@) {
                    None => Err(ShapeError::UriNotText),
                    Some(uri) => match read_headers(field(p, "headers"@)) {
                        Err(e) => Err(e),
                        Ok(headers) => match read_handle(field(p, "body_handle"@)) {
                            None => Err(ShapeError::BodyHandleNotInt),
                            Some(body_handle) => match read_payload(field(p, "body"@)) {
                                None => Err(ShapeError::BodyNotBytes),
                                Some(body) => if body_handle != 0 && body is Some {
                                    Err(ShapeError::BodyAmbiguous)
                                } else {
                                    Ok(
                                        HttpObjectModel {
                                            id: 0,
                                            method,
                                            uri,
                                            status,
                                            headers,
                                            body_handle,
                                            body,
                                        },
                                    )
                                },
                            },
                        },
                    },
                },
            }
        },
        _ => Err(ShapeError::NotAnObject),
    }
}

/// Property `name` as guest code reads it.
pub fn get_field<'a>(props: &'a Vec<GuestProperty>, name: &str) -> (r: &'a GuestValue)
    ensures
        *r == field(props@, name@),
{
    match find_property(props, name) {
        Some(v) => v,
        None => &GuestValue::Undefined,
    }
}

/// A copy of `bytes`.
pub fn copy_bytes(bytes: &Vec<u8>) -> (r: Vec<u8>)
    ensures
        r@ == bytes@,
{
    let mut out: Vec<u8> = Vec::new();
    let mut i: usize = 0;
    while i < bytes.len()
        invariant
            i <= bytes.len(),
            out@ == bytes@.take(i as int),
        decreases bytes.len() - i,
    {
        out.push(bytes[i]);
        assert(bytes@.take(i + 1) =~= bytes@.take(i as int).push(bytes@[i as int]));
        i = i + 1;
    }
    assert(bytes@.take(i as int) =~= bytes@);
    out
}

fn decode_text(v: &GuestValue, default: &str) -> (r: Option<String>)
    ensures
        r is Some <==> read_text(*v, default@) is Some,
        r matches Some(s) ==> read_text(*v, default@) == Some(s@),
{
    match v {
        GuestValue::Undefined => Some(default.to_owned()),
        GuestValue::Text(s) => Some(s.clone()),
        _ => None,
    }
}

/// Once a prefix of the properties holds a value that is not a string, the whole does.
pub proof fn lemma_text_pairs_prefix(props: Seq<GuestProperty>, n: int)
    requires
        0 <= n <= props.len(),
        text_pairs(props.take(n)) is None,
    ensures
        text_pairs(props) is None,
    decreases props.len() - n,
{
    if n < props.len() {
        assert(props.take(n + 1).drop_last() =~= props.take(n));
        lemma_text_pairs_prefix(props, n + 1);
    } else {
        assert(props.take(n) =~= props);
    }
}

fn decode_headers(v: &GuestValue) -> (r: Result<JsHeaders, ShapeError>)
    ensures
        match r {
            Ok(h) => read_headers(*v) == Ok::<Pairs<Seq<char>>, ShapeError>(h@) && h.wf(),
            Err(e) => read_headers(*v) == Err::<Pairs<Seq<char>>, ShapeError>(e),
        },
{
    match v {
        GuestValue::Object(props) => {
            let mut out = JsHeaders::new();
            let mut i: usize = 0;
            assert(props@.take(0) =~= Seq::empty());
            while i < props.len()
                invariant
                    i <= props.len(),
                    text_pairs(props@.take(i as int)) == Some(out@),
                    out.wf(),
                    *v == GuestValue::Object(*props),
                decreases props.len() - i,
            {
                let prop = &props[i];
                proof {
                    let head = props@.take(i + 1);
                    assert(head.drop_last() =~= props@.take(i as int));
                    assert(head.last() == props@[i as int]);
                }
                match &prop.value {
                    GuestValue::Text(s) => {
                        out.insert(prop.name.clone(), s.clone());
                    },
                    _ => {
                        proof {
                            lemma_text_pairs_prefix(props@, i + 1);
                        }
                        return Err(ShapeError::HeaderValueNotText);
                    },
                }
                i = i + 1;
            }
            assert(props@.take(i as int) =~= props@);
            Ok(out)
        },
        _ => Err(ShapeError::HeadersNotObject),
    }
}

impl JsHttpObject {
    /// Reads a message object out of a guest value.
    pub fn from_js(value: &GuestValue) -> (r: Result<JsHttpObject, ShapeError>)
        ensures
            match r {
                Ok(obj) => decode_http_object(*value) == Ok::<HttpObjectModel, ShapeError>(obj@)
                    && obj.wf() && obj.headers.wf(),
                Err(e) => decode_http_object(*value) == Err::<HttpObjectModel, ShapeError>(e),
            },
    {
        let props = match value {
            GuestValue::Object(props) => props,
            _ => {
                return Err(ShapeError::NotAnObject);
            },
        };
        let status: u16 = match get_field(props, "status") {
            GuestValue::Int(n) => #[verifier::truncate]
            (*n as u16),
            _ => 0,
        };
        let method = match decode_text(get_field(props, "method"), "GET") {
            Some(m) => m,
            None => {
                return Err(ShapeError::MethodNotText);
            },
        };
        let uri = match decode_text(get_field(props, "uri"), "/") {
            Some(u) => u,
            None => {
                return Err(ShapeError::UriNotText);
            },
        };
        let headers = match decode_headers(get_field(props, "headers")) {
            Ok(h) => h,
            Err(e) => {
                return Err(e);
            },
        };
        let body_handle: u32 = match get_field(props, "body_handle") {
            GuestValue::Undefined => 0,
            GuestValue::Int(n) => #[verifier::truncate]
            (*n as u32),
            _ => {
                return Err(ShapeError::BodyHandleNotInt);
            },
        };
        let body: Option<Vec<u8>> = match get_field(props, "body") {
            GuestValue::Undefined => None,
            GuestValue::Bytes(b) => if b.len() == 0 {
                None
            } else {
                Some(copy_bytes(b))
            },
            _ => {
                return Err(ShapeError::BodyNotBytes);
            },
        };
        if body_handle != 0 && body.is_some() {
            return Err(ShapeError::BodyAmbiguous);
        }
        Ok(JsHttpObject { id: 0, method, uri, status, headers, body_handle, body })
    }
}

/// The guest number that stands for `n`.
pub open spec fn number(n: u64) -> GuestValue {
    if n <= i32::MAX {
        GuestValue::Int(n as i32)
    } else {
        GuestValue::Big(n)
    }
}

/// `props` are these headers, one string property each, in the same order.
pub open spec fn encodes_headers(props: Seq<GuestProperty>, headers: Pairs<Seq<char>>) -> bool {
    &&& props.len() == headers.len()
    &&& forall|i: int|
        0 <= i < props.len() ==> {
            &&& (#[trigger] props[i]).name@ == headers[i].0
            &&& props[i].value matches GuestValue::Text(s) && s@ == headers[i].1
        }
}

/// `v` is the guest object written for `obj`: the properties `id`, `method`, `uri`,
/// `status`, `headers` and `body_handle`, in that order, followed by `body` where no handle
/// is set and an inline payload is present.
pub open spec fn encodes_http_object(v: GuestValue, obj: HttpObjectModel) -> bool {
    let with_body = obj.body_handle == 0 && obj.body is Some;
    &&& v matches GuestValue::Object(props)
    &&& props@.len() == (if with_body { 7int } else { 6int })
    &&& props@[0].name@ == "id"@
    &&& props@[0].value == number(obj.id)
    &&& props@[1].name@ == "method"@
    &&& props@[1].value matches GuestValue::Text(s) && s@ == obj.method
    &&& props@[2].name@ == "uri"@
    &&& props@[2].value matches GuestValue::Text(s) && s@ == obj.uri
    &&& props@[3].name@ == "status"@
    &&& props@[3].value == number(obj.status as u64)
    &&& props@[4].name@ == "headers"@
    &&& props@[4].value matches GuestValue::Object(hs) && encodes_headers(hs@, obj.headers)
    &&& props@[5].name@ == "body_handle"@
    &&& props@[5].value == number(obj.body_handle as u64)
    &&& with_body ==> props@[6].name@ == "body"@
    &&& with_body ==> (props@[6].value matches GuestValue::Bytes(b) && Some(b@) == obj.body)
}

fn encode_headers(headers: &JsHeaders) -> (r: Vec<GuestProperty>)
    ensures
        encodes_headers(r@, headers@),
{
    let mut out: Vec<GuestProperty> = Vec::new();
    let mut i: usize = 0;
    while i < headers.len()
        invariant
            i <= headers@.len(),
            encodes_headers(out@, headers@.take(i as int)),
        decreases headers@.len() - i,
    {
        let (name, value) = headers.entry(i).unwrap();
        out.push(GuestProperty { name: name.clone(), value: GuestValue::Text(value.clone()) });
        i = i + 1;
    }
    assert(headers@.take(i as int) =~= headers@);
    out
}

impl JsHttpObject {
    /// Writes this object as a guest value.
    pub fn into_js(self) -> (r: GuestValue)
        ensures
            encodes_http_object(r, self@),
    {
        let mut props: Vec<GuestProperty> = Vec::new();
        props.push(GuestProperty { name: "id".to_owned(), value: GuestValue::from_u64(self.id) });
        props.push(GuestProperty { name: "method".to_owned(), value: GuestValue::Text(self.method) });
        props.push(GuestProperty { name: "uri".to_owned(), value: GuestValue::Text(self.uri) });
        props.push(
            GuestProperty {
                name: "status".to_owned(),
                value: GuestValue::from_u64(self.status as u64),
            },
        );
        props.push(
            GuestProperty {
                name: "headers".to_owned(),
                value: GuestValue::Object(encode_headers(&self.headers)),
            },
        );
        props.push(
            GuestProperty {
                name: "body_handle".to_owned(),
                value: GuestValue::from_u64(self.body_handle as u64),
            },
        );
        if self.body_handle == 0 {
            match self.body {
                Some(b) => {
                    props.push(GuestProperty { name: "body".to_owned(), value: GuestValue::Bytes(b) });
                },
                None => {},
            }
        }
        GuestValue::Object(props)
    }
}

} // verus!
