//! The guest-visible HTTP object and its conversions from and to native messages.

use vstd::prelude::*;
use vstd::utf8::{decode_utf8, encode_utf8, encode_utf8_decode_utf8};
use vstd::string::StrSliceExecFns;
use crate::assoc::{distinct, lemma_put, position, put, replace, Pairs};
use crate::error::CodecError;
use crate::headers::JsHeaders;
use crate::native::{
    BodyModel, NativeBody, NativeHeaders, NativeRequest, NativeResponse, RequestModel,
    ResponseModel,
};
use crate::wire::{
    header_name_lowered, header_name_of, header_value_accepted, header_value_text, method_accepted,
    method_accepts, status_accepted, status_ok, uri_accepted, uri_accepts, value_ok, value_visible,
};

verus! {

/// An HTTP request or response as guest code sees it.
#[derive(Debug)]
pub struct JsHttpObject {
    pub id: u64,
    pub method: String,
    pub uri: String,
    pub status: u16,
    pub headers: JsHeaders,
    /// Handle of the host-owned body stream; 0 means that there is none.
    pub body_handle: u32,
    /// Inline payload, used where `body_handle` is 0.
    pub body: Option<Vec<u8>>,
}

/// Mathematical counterpart of [`JsHttpObject`].
pub ghost struct HttpObjectModel {
    pub id: u64,
    pub method: Seq<char>,
    pub uri: Seq<char>,
    pub status: u16,
    pub headers: Pairs<Seq<char>>,
    pub body_handle: u32,
    pub body: Option<Seq<u8>>,
}

impl HttpObjectModel {
    /// A nonzero handle and a non-empty inline payload never occur together.
    pub open spec fn wf(self) -> bool {
        self.body_handle != 0 ==> match self.body {
            Some(b) => b.len() == 0,
            None => true,
        }
    }
}

impl Default for JsHttpObject {
    /// The object with nothing set: no method, no URI, status 0, no headers and no body.
    fn default() -> (r: JsHttpObject)
        ensures
            r@ == (HttpObjectModel {
                id: 0,
                method: Seq::empty(),
                uri: Seq::empty(),
                status: 0,
                headers: Seq::empty(),
                body_handle: 0,
                body: None,
            }),
            r.headers.wf(),
    {
        JsHttpObject {
            id: 0,
            method: String::new(),
            uri: String::new(),
            status: 0,
            headers: JsHeaders::new(),
            body_handle: 0,
            body: None,
        }
    }
}

impl View for JsHttpObject {
    type V = HttpObjectModel;

    open spec fn view(&self) -> HttpObjectModel {
        HttpObjectModel {
            id: self.id,
            method: self.method@,
            uri: self.uri@,
            status: self.status,
            headers: self.headers@,
            body_handle: self.body_handle,
            body: match self.body {
                Some(b) => Some(b@),
                None => None,
            },
        }
    }
}

/// Name of the header that every response built by the bridge carries.
pub open spec fn provenance_name() -> Seq<char> {
    "x-powered-by"@
}

/// Value of the provenance header: product and version.
pub open spec fn provenance_value() -> Seq<u8> {
    encode_utf8("x-land-js-0.1.0"@)
}

/// The guest's view of native header lines: each value as text, a later line of a name
/// replacing the earlier one. `None` where some value is not visible text.
pub open spec fn guest_headers(lines: Pairs<Seq<u8>>) -> Option<Pairs<Seq<char>>>
    decreases lines.len(),
{
    if lines.len() == 0 {
        Some(Seq::empty())
    } else {
        match guest_headers(lines.drop_last()) {
            Some(acc) if value_visible(lines.last().1) => Some(
                put(acc, lines.last().0, decode_utf8(lines.last().1)),
            ),
            _ => None,
        }
    }
}

/// The native header lines for guest headers: names normalized, values as their UTF-8
/// bytes, a later header replacing an earlier one of the same normalized name. `None` where
/// some name or value is not admitted.
pub open spec fn native_headers(headers: Pairs<Seq<char>>) -> Option<Pairs<Seq<u8>>>
    decreases headers.len(),
{
    if headers.len() == 0 {
        Some(Seq::empty())
    } else {
        match (native_headers(headers.drop_last()), header_name_of(headers.last().0)) {
            (Some(acc), Some(name)) if value_ok(encode_utf8(headers.last().1)) => Some(
                put(acc, name, encode_utf8(headers.last().1)),
            ),
            _ => None,
        }
    }
}

/// The handle that the guest is given for a native body.
pub open spec fn handle_of(body: BodyModel) -> u32 {
    match body {
        BodyModel::Handle(h) => h,
        _ => 0,
    }
}

/// The inline payload that the guest is given for a native body.
pub open spec fn inline_of(body: BodyModel) -> Option<Seq<u8>> {
    match body {
        BodyModel::Inline(b) => Some(b),
        _ => None,
    }
}

/// The native body for a guest object: the stream where a handle is set, else the inline
/// payload where there is one, else nothing.
pub open spec fn body_of(handle: u32, body: Option<Seq<u8>>) -> BodyModel {
    if handle != 0 {
        BodyModel::Handle(handle)
    } else {
        match body {
            Some(b) => BodyModel::Inline(b),
            None => BodyModel::Empty,
        }
    }
}

/// What the guest sees of a native request.
pub open spec fn guest_of_request(req: RequestModel) -> Result<HttpObjectModel, CodecError> {
    match guest_headers(req.headers) {
        Some(headers) => Ok(
            HttpObjectModel {
                id: 0,
                method: req.method,
                uri: req.uri,
                status: 0,
                headers,
                body_handle: handle_of(req.body),
                body: inline_of(req.body),
            },
        ),
        None => Err(CodecError::HeaderNotText),
    }
}

/// What the guest sees of a native response.
pub open spec fn guest_of_response(resp: ResponseModel) -> Result<HttpObjectModel, CodecError> {
    match guest_headers(resp.headers) {
        Some(headers) => Ok(
            HttpObjectModel {
                id: 0,
                method: Seq::empty(),
                uri: Seq::empty(),
                status: resp.status,
                headers,
                body_handle: handle_of(resp.body),
                body: inline_of(resp.body),
            },
        ),
        None => Err(CodecError::HeaderNotText),
    }
}

/// The native request that a guest object stands for.
pub open spec fn request_of(obj: HttpObjectModel) -> Result<RequestModel, CodecError> {
    if !method_accepts(obj.method) {
        Err(CodecError::InvalidMethod)
    } else if !uri_accepts(obj.uri) {
        Err(CodecError::InvalidUri)
    } else {
        match native_headers(obj.headers) {
            Some(headers) => Ok(
                RequestModel {
                    method: obj.method,
                    uri: obj.uri,
                    headers,
                    body: body_of(obj.body_handle, obj.body),
                },
            ),
            None => Err(CodecError::InvalidHeader),
        }
    }
}

/// The native response that a guest object stands for. The provenance header is written
/// last, so it replaces whatever the guest stored under that name.
pub open spec fn response_of(obj: HttpObjectModel) -> Result<ResponseModel, CodecError> {
    if !status_ok(obj.status) {
        Err(CodecError::InvalidStatus)
    } else {
        match native_headers(obj.headers) {
            Some(headers) => Ok(
                ResponseModel {
                    status: obj.status,
                    headers: put(headers, provenance_name(), provenance_value()),
                    body: body_of(obj.body_handle, obj.body),
                },
            ),
            None => Err(CodecError::InvalidHeader),
        }
    }
}

/// Shows native header lines to the guest. Fails on the first value that is not visible
/// text.
pub fn to_guest_headers(lines: &NativeHeaders) -> (r: Option<JsHeaders>)
    ensures
        r is Some <==> guest_headers(lines@) is Some,
        r matches Some(h) ==> guest_headers(lines@) == Some(h@) && h.wf(),
{
    let mut out = JsHeaders::new();
    let mut i: usize = 0;
    assert(lines@.take(0) =~= Seq::empty());
    while i < lines.len()
        invariant
            i <= lines@.len(),
            guest_headers(lines@.take(i as int)) == Some(out@),
            out.wf(),
        decreases lines@.len() - i,
    {
        let (name, value) = lines.entry(i).unwrap();
        proof {
            let head = lines@.take(i + 1);
            assert(head.drop_last() =~= lines@.take(i as int));
            assert(head.last() == lines@[i as int]);
        }
        match header_value_text(value.as_slice()) {
            Some(text) => {
                proof {
                    encode_utf8_decode_utf8(text@);
                }
                out.insert(name.clone(), text);
            },
            None => {
                proof {
                    lemma_guest_headers_prefix(lines@, i + 1);
                }
                return None;
            },
        }
        i = i + 1;
    }
    assert(lines@.take(i as int) =~= lines@);
    Some(out)
}

/// Once a prefix of the lines cannot be shown, neither can the whole.
pub proof fn lemma_guest_headers_prefix(lines: Pairs<Seq<u8>>, n: int)
    requires
        0 <= n <= lines.len(),
        guest_headers(lines.take(n)) is None,
    ensures
        guest_headers(lines) is None,
    decreases lines.len() - n,
{
    if n < lines.len() {
        assert(lines.take(n + 1).drop_last() =~= lines.take(n));
        lemma_guest_headers_prefix(lines, n + 1);
    } else {
        assert(lines.take(n) =~= lines);
    }
}

/// Adds one guest header to native header lines under construction, given what the HTTP
/// rules say of it: `name` is the normalized header name (`None` where the name is not
/// admitted) and `admitted` tells whether the value bytes are. Returns whether the header
/// was written; otherwise `lines` is unchanged. A written header replaces every line of its
/// name.
pub fn write_native_header(
    lines: &mut NativeHeaders,
    name: Option<String>,
    value: Vec<u8>,
    admitted: bool,
) -> (written: bool)
    ensures
        written == (name is Some && admitted),
        written ==> final(lines)@ == replace(old(lines)@, name->0@, value@),
        written && distinct(old(lines)@) ==> final(lines)@ == put(old(lines)@, name->0@, value@),
        !written ==> final(lines)@ == old(lines)@,
        distinct(old(lines)@) ==> distinct(final(lines)@),
{
    match name {
        Some(n) => {
            if admitted {
                lines.insert(n, value);
                true
            } else {
                false
            }
        },
        None => false,
    }
}

/// Once a prefix of the headers is not admitted, neither is the whole.
pub proof fn lemma_native_headers_prefix(headers: Pairs<Seq<char>>, n: int)
    requires
        0 <= n <= headers.len(),
        native_headers(headers.take(n)) is None,
    ensures
        native_headers(headers) is None,
    decreases headers.len() - n,
{
    if n < headers.len() {
        assert(headers.take(n + 1).drop_last() =~= headers.take(n));
        lemma_native_headers_prefix(headers, n + 1);
    } else {
        assert(headers.take(n) =~= headers);
    }
}

/// Turns guest headers into native header lines. Fails on the first header whose name or
/// value HTTP does not admit.
pub fn to_native_headers(headers: &JsHeaders) -> (r: Option<NativeHeaders>)
    ensures
        r is Some <==> native_headers(headers@) is Some,
        r matches Some(lines) ==> native_headers(headers@) == Some(lines@) && distinct(lines@),
{
    let mut out = NativeHeaders::new();
    let mut i: usize = 0;
    assert(headers@.take(0) =~= Seq::empty());
    while i < headers.len()
        invariant
            i <= headers@.len(),
            native_headers(headers@.take(i as int)) == Some(out@),
            distinct(out@),
        decreases headers@.len() - i,
    {
        let (name, value) = headers.entry(i).unwrap();
        proof {
            let head = headers@.take(i + 1);
            assert(head.drop_last() =~= headers@.take(i as int));
            assert(head.last() == headers@[i as int]);
        }
        let lowered = header_name_lowered(name.as_str().as_bytes());
        let bytes = value.as_str().as_bytes_vec();
        let admitted = header_value_accepted(bytes.as_slice());
        if !write_native_header(&mut out, lowered, bytes, admitted) {
            proof {
                lemma_native_headers_prefix(headers@, i + 1);
            }
            return None;
        }
        i = i + 1;
    }
    assert(headers@.take(i as int) =~= headers@);
    Some(out)
}

/// The native body for a guest object's handle and inline payload.
pub fn select_body(handle: u32, body: Option<Vec<u8>>) -> (r: NativeBody)
    ensures
        r@ == body_of(
            handle,
            match body {
                Some(b) => Some(b@),
                None => None,
            },
        ),
        r.wf(),
{
    if handle != 0 {
        NativeBody::Handle(handle)
    } else {
        match body {
            Some(b) => NativeBody::Inline(b),
            None => NativeBody::Empty,
        }
    }
}

/// Decides what `into_request` returns, given what the HTTP rules say of the parts:
/// whether the method and the URI are admitted, and the native header lines (`None` where
/// a header is not admitted).
pub fn finish_request(
    method: String,
    method_admitted: bool,
    uri: String,
    uri_admitted: bool,
    headers: Option<NativeHeaders>,
    body: NativeBody,
) -> (r: Result<NativeRequest, CodecError>)
    ensures
        !method_admitted ==> r == Err::<NativeRequest, CodecError>(CodecError::InvalidMethod),
        method_admitted && !uri_admitted ==> r == Err::<NativeRequest, CodecError>(
            CodecError::InvalidUri,
        ),
        method_admitted && uri_admitted && headers is None ==> r == Err::<
            NativeRequest,
            CodecError,
        >(CodecError::InvalidHeader),
        method_admitted && uri_admitted && headers is Some ==> r == Ok::<
            NativeRequest,
            CodecError,
        >(NativeRequest { method, uri, headers: headers->0, body }),
{
    if !method_admitted {
        Err(CodecError::InvalidMethod)
    } else if !uri_admitted {
        Err(CodecError::InvalidUri)
    } else {
        match headers {
            Some(headers) => Ok(NativeRequest { method, uri, headers, body }),
            None => Err(CodecError::InvalidHeader),
        }
    }
}

/// The provenance header: its name and its value.
pub fn provenance_header() -> (r: (String, Vec<u8>))
    ensures
        r.0@ == provenance_name(),
        r.1@ == provenance_value(),
{
    ("x-powered-by".to_owned(), "x-land-js-0.1.0".as_bytes_vec())
}

/// Decides what `into_response` returns, given what the HTTP rules say of the parts:
/// whether the status is admitted, and the native header lines (`None` where a header is
/// not admitted). Stamps the provenance header over the lines: whatever they hold under its
/// name is replaced, so that the response has exactly one line of that name, with the fixed
/// value.
pub fn finish_response(
    status: u16,
    status_admitted: bool,
    headers: Option<NativeHeaders>,
    body: NativeBody,
) -> (r: Result<NativeResponse, CodecError>)
    ensures
        !status_admitted ==> r == Err::<NativeResponse, CodecError>(CodecError::InvalidStatus),
        status_admitted && headers is None ==> r == Err::<NativeResponse, CodecError>(
            CodecError::InvalidHeader,
        ),
        status_admitted && headers is Some ==> (r matches Ok(resp) && {
            &&& resp.status == status
            &&& resp.body == body
            &&& resp.headers@ == replace(headers->0@, provenance_name(), provenance_value())
            &&& forall|j: int|
                0 <= j < resp.headers@.len() && (#[trigger] resp.headers@[j]).0
                    == provenance_name() ==> position(resp.headers@, provenance_name()) == Some(j)
                    && resp.headers@[j].1 == provenance_value()
            &&& distinct(headers->0@) ==> resp.headers@ == put(
                headers->0@,
                provenance_name(),
                provenance_value(),
            )
        }),
{
    if !status_admitted {
        Err(CodecError::InvalidStatus)
    } else {
        match headers {
            Some(lines) => {
                let mut lines = lines;
                let (name, value) = provenance_header();
                lines.insert(name, value);
                Ok(NativeResponse { status, headers: lines, body })
            },
            None => Err(CodecError::InvalidHeader),
        }
    }
}

fn guest_body(body: NativeBody) -> (r: (u32, Option<Vec<u8>>))
    ensures
        r.0 == handle_of(body@),
        match r.1 {
            Some(b) => inline_of(body@) == Some(b@),
            None => inline_of(body@) is None,
        },
{
    match body {
        NativeBody::Empty => (0, None),
        NativeBody::Handle(h) => (h, None),
        NativeBody::Inline(b) => (0, Some(b)),
    }
}

impl JsHttpObject {
    /// A nonzero handle and a non-empty inline payload never occur together.
    pub open spec fn wf(&self) -> bool {
        self@.wf()
    }

    /// Copies method, URI and headers of a native request and forwards its body without
    /// reading it. Fails where a header value is not visible text.
    pub fn from_request(req: NativeRequest) -> (r: Result<JsHttpObject, CodecError>)
        ensures
            match r {
                Ok(obj) => guest_of_request(req@) == Ok::<HttpObjectModel, CodecError>(obj@)
                    && obj.wf() && obj.headers.wf(),
                Err(e) => guest_of_request(req@) == Err::<HttpObjectModel, CodecError>(e),
            },
    {
        match to_guest_headers(&req.headers) {
            Some(headers) => {
                let (body_handle, body) = guest_body(req.body);
                Ok(
                    JsHttpObject {
                        id: 0,
                        method: req.method,
                        uri: req.uri,
                        status: 0,
                        headers,
                        body_handle,
                        body,
                    },
                )
            },
            None => Err(CodecError::HeaderNotText),
        }
    }

    /// Builds the native request that this object stands for: the method and the URI are
    /// checked, the headers rebuilt, and the body chosen by priority (stream handle, inline
    /// payload, nothing).
    pub fn into_request(self) -> (r: Result<NativeRequest, CodecError>)
        ensures
            match r {
                Ok(req) => request_of(self@) == Ok::<RequestModel, CodecError>(req@)
                    && distinct(req.headers@) && req.body.wf(),
                Err(e) => request_of(self@) == Err::<RequestModel, CodecError>(e),
            },
    {
        let method_admitted = method_accepted(self.method.as_str().as_bytes());
        let uri_admitted = uri_accepted(self.uri.as_str());
        let headers = to_native_headers(&self.headers);
        let body = select_body(self.body_handle, self.body);
        finish_request(self.method, method_admitted, self.uri, uri_admitted, headers, body)
    }

    /// Builds the native response that this object stands for: the status is checked, the
    /// headers rebuilt and the provenance header stamped over them, and the body chosen by
    /// priority (stream handle, inline payload, nothing).
    pub fn into_response(self) -> (r: Result<NativeResponse, CodecError>)
        ensures
            match r {
                Ok(resp) => response_of(self@) == Ok::<ResponseModel, CodecError>(resp@)
                    && distinct(resp.headers@) && resp.body.wf(),
                Err(e) => response_of(self@) == Err::<ResponseModel, CodecError>(e),
            },
    {
        let status_admitted = status_accepted(self.status);
        let headers = to_native_headers(&self.headers);
        let body = select_body(self.body_handle, self.body);
        proof {
            if headers is Some {
                lemma_put(headers->0@, provenance_name(), provenance_value());
            }
        }
        finish_response(self.status, status_admitted, headers, body)
    }

    /// Copies status and headers of a native response and forwards its body without reading
    /// it. Fails where a header value is not visible text.
    pub fn from_response(response: NativeResponse) -> (r: Result<JsHttpObject, CodecError>)
        ensures
            match r {
                Ok(obj) => guest_of_response(response@) == Ok::<HttpObjectModel, CodecError>(obj@)
                    && obj.wf() && obj.headers.wf(),
                Err(e) => guest_of_response(response@) == Err::<HttpObjectModel, CodecError>(e),
            },
    {
        match to_guest_headers(&response.headers) {
            Some(headers) => {
                let (body_handle, body) = guest_body(response.body);
                let obj = JsHttpObject {
                    id: 0,
                    method: String::new(),
                    uri: String::new(),
                    status: response.status,
                    headers,
                    body_handle,
                    body,
                };
                assert(obj@.method =~= Seq::empty());
                Ok(obj)
            },
            None => Err(CodecError::HeaderNotText),
        }
    }
}

} // verus!
