//! What holds of the codec as a whole: facts that relate its conversions to one another.

use vstd::prelude::*;
use vstd::utf8::{
    decode_utf8, decode_utf8_encode_utf8, encode_utf8, is_leading_byte_width_1, partial_valid_utf8,
    partial_valid_utf8_extend_ascii_block, valid_utf8,
};
use crate::assoc::{
    distinct, lemma_position, lemma_position_none, lemma_put, lookup, position, put, Pairs,
};
use crate::entity::{
    guest_headers, guest_of_request, guest_of_response, native_headers, provenance_name,
    provenance_value, request_of, response_of, HttpObjectModel,
};
use crate::error::{CodecError, ShapeError};
use crate::native::{BodyModel, RequestModel, ResponseModel};
use crate::shape::{
    decode_http_object, encodes_headers, encodes_http_object, field, read_handle, read_payload,
    text_pairs,
};
use crate::value::{property, GuestProperty, GuestValue};
use crate::wire::{header_name_of, method_accepts, uri_accepts, value_ok, value_visible};

verus! {

/// Bytes that can be shown as header text are the UTF-8 encoding of that text.
pub proof fn lemma_visible_is_utf8(bytes: Seq<u8>)
    requires
        value_visible(bytes),
    ensures
        valid_utf8(bytes),
        encode_utf8(decode_utf8(bytes)) == bytes,
        value_ok(bytes),
{
    assert forall|i: int| 0 <= i < bytes.len() implies #[trigger] is_leading_byte_width_1(
        bytes[i],
    ) by {
        assert(value_visible(bytes) && bytes[i] < 128);
    }
    assert(bytes.subrange(0, 0) =~= Seq::<u8>::empty());
    assert(partial_valid_utf8(bytes, 0));
    partial_valid_utf8_extend_ascii_block(bytes, 0, bytes.len() as int);
    assert(bytes.subrange(0, bytes.len() as int) =~= bytes);
    decode_utf8_encode_utf8(bytes);
}

/// The header lines as text: each value decoded, names and order kept.
pub open spec fn as_text(lines: Pairs<Seq<u8>>) -> Pairs<Seq<char>> {
    Seq::new(lines.len(), |i: int| (lines[i].0, decode_utf8(lines[i].1)))
}

/// Every header name is in normalized form.
pub open spec fn names_normalized(lines: Pairs<Seq<u8>>) -> bool {
    forall|i: int| 0 <= i < lines.len() ==> header_name_of(#[trigger] lines[i].0) == Some(lines[i].0)
}

/// Every header value can be shown as text.
pub open spec fn values_visible(lines: Pairs<Seq<u8>>) -> bool {
    forall|i: int| 0 <= i < lines.len() ==> value_visible(#[trigger] lines[i].1)
}

/// Lines with distinct names and visible values are shown to the guest one for one.
pub proof fn lemma_guest_headers_of_distinct(lines: Pairs<Seq<u8>>)
    requires
        distinct(lines),
        values_visible(lines),
    ensures
        guest_headers(lines) == Some(as_text(lines)),
    decreases lines.len(),
{
    if lines.len() == 0 {
        assert(as_text(lines) =~= Seq::empty());
    } else {
        let head = lines.drop_last();
        assert(distinct(head)) by {
            assert forall|i: int, j: int| 0 <= i < j < head.len() implies (#[trigger] head[i]).0 != (
            #[trigger] head[j]).0 by {
                assert(head[i] == lines[i] && head[j] == lines[j]);
            }
        }
        assert(values_visible(head)) by {
            assert forall|i: int| 0 <= i < head.len() implies value_visible(#[trigger] head[i].1) by {
                assert(head[i] == lines[i]);
            }
        }
        lemma_guest_headers_of_distinct(head);
        let acc = as_text(head);
        let last = lines.last();
        assert(value_visible(last.1)) by {
            assert(lines[lines.len() - 1] == last);
        }
        assert forall|j: int| 0 <= j < acc.len() implies (#[trigger] acc[j]).0 != last.0 by {
            assert(acc[j].0 == lines[j].0);
            assert(lines[j].0 != lines[lines.len() - 1].0);
        }
        lemma_position_none(acc, last.0);
        assert(put(acc, last.0, decode_utf8(last.1)) =~= as_text(lines));
    }
}

/// Text headers that came from native lines with distinct, normalized names and visible
/// values turn back into those lines.
pub proof fn lemma_native_headers_of_text(lines: Pairs<Seq<u8>>)
    requires
        distinct(lines),
        values_visible(lines),
        names_normalized(lines),
    ensures
        native_headers(as_text(lines)) == Some(lines),
    decreases lines.len(),
{
    let text = as_text(lines);
    if lines.len() == 0 {
        assert(lines =~= Seq::empty());
    } else {
        let head = lines.drop_last();
        assert(distinct(head)) by {
            assert forall|i: int, j: int| 0 <= i < j < head.len() implies (#[trigger] head[i]).0 != (
            #[trigger] head[j]).0 by {
                assert(head[i] == lines[i] && head[j] == lines[j]);
            }
        }
        assert(values_visible(head)) by {
            assert forall|i: int| 0 <= i < head.len() implies value_visible(#[trigger] head[i].1) by {
                assert(head[i] == lines[i]);
            }
        }
        assert(names_normalized(head)) by {
            assert forall|i: int| 0 <= i < head.len() implies header_name_of(
                #[trigger] head[i].0,
            ) == Some(head[i].0) by {
                assert(head[i] == lines[i]);
            }
        }
        lemma_native_headers_of_text(head);
        assert(text.drop_last() =~= as_text(head));
        let last = lines.last();
        assert(lines[lines.len() - 1] == last);
        assert(text.last() == (last.0, decode_utf8(last.1)));
        lemma_visible_is_utf8(last.1);
        assert forall|j: int| 0 <= j < head.len() implies (#[trigger] head[j]).0 != last.0 by {
            assert(head[j] == lines[j]);
            assert(lines[j].0 != lines[lines.len() - 1].0);
        }
        lemma_position_none(head, last.0);
        assert(put(head, last.0, last.1) =~= lines);
    }
}

/// A request as the host can hold it: the method and the URI are admitted, the header names
/// are normalized, and a stream body has a nonzero handle.
pub open spec fn request_wf(req: RequestModel) -> bool {
    &&& method_accepts(req.method)
    &&& uri_accepts(req.uri)
    &&& names_normalized(req.headers)
    &&& (req.body matches BodyModel::Handle(h) ==> h != 0)
}

/// Showing a native request to the guest and turning the result back gives the request
/// again: the same method, URI, header lines and body. This holds of requests in which no
/// header name occurs twice and every header value is visible text; a request with a repeated
/// name keeps only the last line of that name, and one with another value is not shown at all.
pub proof fn lemma_request_round_trip(req: RequestModel)
    requires
        request_wf(req),
        distinct(req.headers),
        values_visible(req.headers),
    ensures
        guest_of_request(req) matches Ok(obj) && request_of(obj) == Ok::<RequestModel, CodecError>(
            req,
        ),
{
    lemma_guest_headers_of_distinct(req.headers);
    lemma_native_headers_of_text(req.headers);
}

/// No later header has the normalized name of header `i`.
pub open spec fn last_of_name(headers: Pairs<Seq<char>>, i: int) -> bool {
    forall|j: int|
        i < j < headers.len() ==> header_name_of(#[trigger] headers[j].0) != header_name_of(
            headers[i].0,
        )
}

/// Where guest headers are admitted, the native lines hold, under each normalized name, the
/// bytes of the last guest header of that name.
pub proof fn lemma_native_lookup(headers: Pairs<Seq<char>>, i: int)
    requires
        native_headers(headers) is Some,
        0 <= i < headers.len(),
        last_of_name(headers, i),
    ensures
        header_name_of(headers[i].0) is Some,
        value_ok(encode_utf8(headers[i].1)),
        lookup(native_headers(headers)->0, header_name_of(headers[i].0)->0) == Some(
            encode_utf8(headers[i].1),
        ),
    decreases headers.len(),
{
    let head = headers.drop_last();
    let last = headers.last();
    let acc = native_headers(head)->0;
    let name = header_name_of(last.0)->0;
    lemma_put(acc, name, encode_utf8(last.1));
    if i < headers.len() - 1 {
        assert(head[i] == headers[i]);
        assert(last_of_name(head, i)) by {
            assert forall|j: int| i < j < head.len() implies header_name_of(
                #[trigger] head[j].0,
            ) != header_name_of(head[i].0) by {
                assert(head[j] == headers[j]);
            }
        }
        lemma_native_lookup(head, i);
        assert(headers[headers.len() - 1] == last);
        assert(header_name_of(last.0) != header_name_of(headers[i].0));
    }
}

/// Where guest headers are admitted, the native lines hold nothing under a name that is the
/// normalized name of no guest header.
pub proof fn lemma_native_lookup_absent(headers: Pairs<Seq<char>>, name: Seq<char>)
    requires
        native_headers(headers) is Some,
        forall|j: int| 0 <= j < headers.len() ==> header_name_of(#[trigger] headers[j].0) != Some(name),
    ensures
        lookup(native_headers(headers)->0, name) is None,
    decreases headers.len(),
{
    if headers.len() == 0 {
        lemma_position_none(native_headers(headers)->0, name);
    } else {
        let head = headers.drop_last();
        let last = headers.last();
        assert forall|j: int| 0 <= j < head.len() implies header_name_of(#[trigger] head[j].0)
            != Some(name) by {
            assert(head[j] == headers[j]);
        }
        lemma_native_lookup_absent(head, name);
        assert(headers[headers.len() - 1] == last);
        lemma_put(native_headers(head)->0, header_name_of(last.0)->0, encode_utf8(last.1));
    }
}

/// The native lines for guest headers never hold a name twice.
pub proof fn lemma_native_headers_distinct(headers: Pairs<Seq<char>>)
    requires
        native_headers(headers) is Some,
    ensures
        distinct(native_headers(headers)->0),
    decreases headers.len(),
{
    if headers.len() > 0 {
        let head = headers.drop_last();
        let last = headers.last();
        lemma_native_headers_distinct(head);
        lemma_put(native_headers(head)->0, header_name_of(last.0)->0, encode_utf8(last.1));
    }
}

/// The response built for a valid guest object with an inline payload has the guest's
/// status and exactly that payload, carries the provenance header with its fixed value
/// whatever the guest stored under that name, and carries every guest header: under its
/// normalized name stand the UTF-8 bytes of its value, unless a later header of the same
/// normalized name, or the provenance header, replaced it.
pub proof fn lemma_response_carries(obj: HttpObjectModel, payload: Seq<u8>)
    requires
        response_of(obj) is Ok,
        obj.body_handle == 0,
        obj.body == Some(payload),
    ensures
        response_of(obj) matches Ok(resp) && {
            &&& resp.status == obj.status
            &&& resp.body == BodyModel::Inline(payload)
            &&& distinct(resp.headers)
            &&& lookup(resp.headers, provenance_name()) == Some(provenance_value())
            &&& forall|i: int|
                #![trigger obj.headers[i]]
                0 <= i < obj.headers.len() && last_of_name(obj.headers, i) && header_name_of(
                    obj.headers[i].0,
                ) != Some(provenance_name()) ==> lookup(
                    resp.headers,
                    header_name_of(obj.headers[i].0)->0,
                ) == Some(encode_utf8(obj.headers[i].1))
        },
{
    let lines = native_headers(obj.headers)->0;
    let resp = response_of(obj)->Ok_0;
    lemma_native_headers_distinct(obj.headers);
    lemma_put(lines, provenance_name(), provenance_value());
    assert forall|i: int|
        #![trigger obj.headers[i]]
        0 <= i < obj.headers.len() && last_of_name(obj.headers, i) && header_name_of(
            obj.headers[i].0,
        ) != Some(provenance_name()) implies lookup(
        resp.headers,
        header_name_of(obj.headers[i].0)->0,
    ) == Some(encode_utf8(obj.headers[i].1)) by {
        lemma_native_lookup(obj.headers, i);
    }
}

/// Whatever the guest sees of a native request never has both a nonzero handle and an inline
/// payload.
pub proof fn lemma_guest_request_is_wf(req: RequestModel)
    ensures
        guest_of_request(req) matches Ok(obj) ==> obj.wf(),
{
}

/// Whatever the guest sees of a native response never has both a nonzero handle and an
/// inline payload.
pub proof fn lemma_guest_response_is_wf(resp: ResponseModel)
    ensures
        guest_of_response(resp) matches Ok(obj) ==> obj.wf(),
{
}

/// A guest object that sets both a nonzero `body_handle` and a non-empty `body` is never
/// read as a message: reading it ends in a violation, and a value that is read as a message
/// never holds both.
pub proof fn lemma_both_bodies_rejected(v: GuestValue)
    ensures
        decode_http_object(v) matches Ok(obj) ==> obj.wf(),
        (v matches GuestValue::Object(props) && (read_handle(field(props@, "body_handle"@))
            matches Some(h) && h != 0) && (read_payload(field(props@, "body"@)) matches Some(
            Some(b),
        ))) ==> decode_http_object(v) is Err,
{
}

/// Every header has an admitted name and an admitted value.
pub open spec fn all_admitted(headers: Pairs<Seq<char>>) -> bool {
    forall|i: int|
        0 <= i < headers.len() ==> header_name_of((#[trigger] headers[i]).0) is Some && value_ok(
            encode_utf8(headers[i].1),
        )
}

/// No two headers with admitted names share a normalized name.
pub open spec fn names_apart(headers: Pairs<Seq<char>>) -> bool {
    forall|i: int, j: int|
        0 <= i < j < headers.len() && header_name_of((#[trigger] headers[i]).0) is Some
            ==> header_name_of((#[trigger] headers[j]).0) != header_name_of(headers[i].0)
}

/// Guest headers turn into native lines exactly when each of them is admitted.
pub proof fn lemma_native_headers_some(headers: Pairs<Seq<char>>)
    ensures
        native_headers(headers) is Some <==> all_admitted(headers),
    decreases headers.len(),
{
    if headers.len() > 0 {
        let head = headers.drop_last();
        lemma_native_headers_some(head);
        assert(headers[headers.len() - 1] == headers.last());
        if all_admitted(headers) {
            assert forall|i: int| 0 <= i < head.len() implies header_name_of(
                (#[trigger] head[i]).0,
            ) is Some && value_ok(encode_utf8(head[i].1)) by {
                assert(head[i] == headers[i]);
            }
        }
        if native_headers(headers) is Some {
            assert forall|i: int| 0 <= i < headers.len() implies header_name_of(
                (#[trigger] headers[i]).0,
            ) is Some && value_ok(encode_utf8(headers[i].1)) by {
                if i < head.len() {
                    assert(head[i] == headers[i]);
                }
            }
        }
    }
}

/// Two lists with distinct names that answer every lookup alike hold the same pairs.
pub proof fn lemma_same_lookups_same_set<V>(x: Pairs<V>, y: Pairs<V>)
    requires
        distinct(x),
        distinct(y),
        forall|k: Seq<char>| lookup(x, k) == lookup(y, k),
    ensures
        x.to_set() == y.to_set(),
{
    assert forall|e: (Seq<char>, V)| x.to_set().contains(e) <==> y.to_set().contains(e) by {
        lemma_lookup_of_member(x, e);
        lemma_lookup_of_member(y, e);
        assert(lookup(x, e.0) == lookup(y, e.0));
    }
    assert(x.to_set() =~= y.to_set());
}

/// In a list with distinct names, a pair is a member exactly when looking up its name gives
/// its value.
pub proof fn lemma_lookup_of_member<V>(x: Pairs<V>, e: (Seq<char>, V))
    requires
        distinct(x),
    ensures
        x.to_set().contains(e) <==> lookup(x, e.0) == Some(e.1),
{
    lemma_position(x, e.0);
    if x.to_set().contains(e) {
        let i = choose|i: int| 0 <= i < x.len() && x[i] == e;
        match position(x, e.0) {
            Some(p) => {
                if p != i {
                    if p < i {
                        assert(x[p].0 != x[i].0);
                    } else {
                        assert(x[i].0 != x[p].0);
                    }
                }
            },
            None => {
                assert(x[i].0 != e.0);
            },
        }
    }
    if lookup(x, e.0) == Some(e.1) {
        let p = position(x, e.0)->0;
        assert(x[p] == e);
        assert(x.contains(e));
    }
}

/// The response built for a guest object does not depend on the order in which the guest
/// stored its headers: two objects that agree on status and body and hold the same set of
/// headers give the same outcome, and where that is a response, the two responses carry the
/// same status, body and set of header lines. This holds of objects in which no two headers
/// share a normalized name; of two headers that differ only in letter case, the one stored
/// last wins, so their order shows.
pub proof fn lemma_response_ignores_order(a: HttpObjectModel, b: HttpObjectModel)
    requires
        a.status == b.status,
        a.body_handle == b.body_handle,
        a.body == b.body,
        a.headers.to_set() == b.headers.to_set(),
        names_apart(a.headers),
        names_apart(b.headers),
    ensures
        match (response_of(a), response_of(b)) {
            (Ok(x), Ok(y)) => x.status == y.status && x.body == y.body && x.headers.to_set()
                == y.headers.to_set(),
            (Err(e), Err(f)) => e == f,
            _ => false,
        },
{
    lemma_native_headers_some(a.headers);
    lemma_native_headers_some(b.headers);
    lemma_same_set_same_admitted(a.headers, b.headers);
    lemma_same_set_same_admitted(b.headers, a.headers);
    if response_of(a) is Ok {
        let na = native_headers(a.headers)->0;
        let nb = native_headers(b.headers)->0;
        lemma_native_headers_distinct(a.headers);
        lemma_native_headers_distinct(b.headers);
        assert forall|k: Seq<char>| lookup(na, k) == lookup(nb, k) by {
            lemma_same_set_same_lookup(a.headers, b.headers, k);
        }
        let ra = put(na, provenance_name(), provenance_value());
        let rb = put(nb, provenance_name(), provenance_value());
        lemma_put(na, provenance_name(), provenance_value());
        lemma_put(nb, provenance_name(), provenance_value());
        assert forall|k: Seq<char>| lookup(ra, k) == lookup(rb, k) by {
            if k != provenance_name() {
                assert(lookup(ra, k) == lookup(na, k));
                assert(lookup(rb, k) == lookup(nb, k));
            }
        }
        lemma_same_lookups_same_set(ra, rb);
    }
}

/// Headers that are all admitted stay so in any list that holds no other headers.
pub proof fn lemma_same_set_same_admitted(x: Pairs<Seq<char>>, y: Pairs<Seq<char>>)
    requires
        x.to_set() == y.to_set(),
    ensures
        all_admitted(x) ==> all_admitted(y),
{
    if all_admitted(x) {
        assert forall|i: int| 0 <= i < y.len() implies header_name_of((#[trigger] y[i]).0) is Some
            && value_ok(encode_utf8(y[i].1)) by {
            assert(y.contains(y[i]));
            assert(y.to_set().contains(y[i]));
            assert(x.to_set().contains(y[i]));
            let k = choose|k: int| 0 <= k < x.len() && x[k] == y[i];
            assert(header_name_of(x[k].0) is Some);
        }
    }
}

/// Two admitted header lists that hold the same headers, neither with two headers of one
/// normalized name, give native lines that answer every lookup alike.
pub proof fn lemma_same_set_same_lookup(x: Pairs<Seq<char>>, y: Pairs<Seq<char>>, name: Seq<char>)
    requires
        x.to_set() == y.to_set(),
        names_apart(x),
        names_apart(y),
        native_headers(x) is Some,
        native_headers(y) is Some,
    ensures
        lookup(native_headers(x)->0, name) == lookup(native_headers(y)->0, name),
{
    lemma_native_headers_some(x);
    lemma_native_headers_some(y);
    if exists|i: int| 0 <= i < x.len() && header_name_of(#[trigger] x[i].0) == Some(name) {
        let i = choose|i: int| 0 <= i < x.len() && header_name_of(#[trigger] x[i].0) == Some(name);
        assert(x.contains(x[i]));
        assert(x.to_set().contains(x[i]));
        assert(y.to_set().contains(x[i]));
        let j = choose|j: int| 0 <= j < y.len() && y[j] == x[i];
        assert(last_of_name(x, i)) by {
            assert forall|k: int| i < k < x.len() implies header_name_of(#[trigger] x[k].0)
                != header_name_of(x[i].0) by {
                assert(header_name_of(x[i].0) is Some);
            }
        }
        assert(last_of_name(y, j)) by {
            assert forall|k: int| j < k < y.len() implies header_name_of(#[trigger] y[k].0)
                != header_name_of(y[j].0) by {
                assert(header_name_of(y[j].0) is Some);
            }
        }
        lemma_native_lookup(x, i);
        lemma_native_lookup(y, j);
    } else {
        assert forall|j: int| 0 <= j < y.len() implies header_name_of(#[trigger] y[j].0) != Some(
            name,
        ) by {
            assert(y.contains(y[j]));
            assert(y.to_set().contains(y[j]));
            assert(x.to_set().contains(y[j]));
            let k = choose|k: int| 0 <= k < x.len() && x[k] == y[j];
            assert(header_name_of(x[k].0) != Some(name));
        }
        lemma_native_lookup_absent(x, name);
        lemma_native_lookup_absent(y, name);
    }
}

/// A property that no later property shadows is the one that a read of its name finds.
pub proof fn lemma_property_at(props: Seq<GuestProperty>, i: int)
    requires
        0 <= i < props.len(),
        forall|j: int| i < j < props.len() ==> (#[trigger] props[j]).name@ != props[i].name@,
    ensures
        property(props, props[i].name@) == Some(props[i].value),
    decreases props.len(),
{
    if i < props.len() - 1 {
        let head = props.drop_last();
        assert(props[props.len() - 1] == props.last());
        assert(head[i] == props[i]);
        assert forall|j: int| i < j < head.len() implies (#[trigger] head[j]).name@
            != head[i].name@ by {
            assert(head[j] == props[j]);
        }
        lemma_property_at(head, i);
    }
}

/// A name that no property has reads as absent.
pub proof fn lemma_property_absent(props: Seq<GuestProperty>, name: Seq<char>)
    requires
        forall|j: int| 0 <= j < props.len() ==> (#[trigger] props[j]).name@ != name,
    ensures
        property(props, name) is None,
    decreases props.len(),
{
    if props.len() > 0 {
        let head = props.drop_last();
        assert(props[props.len() - 1] == props.last());
        assert forall|j: int| 0 <= j < head.len() implies (#[trigger] head[j]).name@ != name by {
            assert(head[j] == props[j]);
        }
        lemma_property_absent(head, name);
    }
}

/// Headers written as string properties, no name twice, read back as they were.
pub proof fn lemma_headers_read_back(props: Seq<GuestProperty>, headers: Pairs<Seq<char>>)
    requires
        encodes_headers(props, headers),
        distinct(headers),
    ensures
        text_pairs(props) == Some(headers),
    decreases props.len(),
{
    if props.len() == 0 {
        assert(headers =~= Seq::empty());
    } else {
        let head = props.drop_last();
        let rest = headers.drop_last();
        assert(encodes_headers(head, rest)) by {
            assert forall|i: int| 0 <= i < head.len() implies {
                &&& (#[trigger] head[i]).name@ == rest[i].0
                &&& head[i].value matches GuestValue::Text(s) && s@ == rest[i].1
            } by {
                assert(head[i] == props[i]);
                assert(rest[i] == headers[i]);
            }
        }
        assert(distinct(rest)) by {
            assert forall|i: int, j: int| 0 <= i < j < rest.len() implies (#[trigger] rest[i]).0 != (
            #[trigger] rest[j]).0 by {
                assert(rest[i] == headers[i] && rest[j] == headers[j]);
            }
        }
        lemma_headers_read_back(head, rest);
        let last = props.last();
        assert(props[props.len() - 1] == last);
        assert(headers[headers.len() - 1] == headers.last());
        assert forall|j: int| 0 <= j < rest.len() implies (#[trigger] rest[j]).0 != last.name@ by {
            assert(rest[j] == headers[j]);
            assert(headers[j].0 != headers[headers.len() - 1].0);
        }
        lemma_position_none(rest, last.name@);
        assert(put(rest, last.name@, headers.last().1) =~= headers);
    }
}

/// What is written for the guest reads back as the same object: a message object, written
/// as a guest value and read again, is unchanged. This holds of objects as the bridge makes
/// them: the `id` is 0, no header name occurs twice, the handle fits a 32-bit integer, and
/// an inline payload is not empty and comes without a handle.
pub proof fn lemma_written_object_reads_back(v: GuestValue, obj: HttpObjectModel)
    requires
        encodes_http_object(v, obj),
        obj.id == 0,
        distinct(obj.headers),
        obj.body_handle <= i32::MAX,
        obj.body_handle != 0 ==> obj.body is None,
        obj.body matches Some(b) ==> b.len() > 0,
    ensures
        decode_http_object(v) == Ok::<HttpObjectModel, ShapeError>(obj),
{
    let props = v->Object_0@;
    reveal_strlit("id");
    reveal_strlit("method");
    reveal_strlit("uri");
    reveal_strlit("status");
    reveal_strlit("headers");
    reveal_strlit("body_handle");
    reveal_strlit("body");
    assert("method"@[0] == 'm' && "status"@[0] == 's');
    assert("id"@.len() == 2 && "uri"@.len() == 3 && "body"@.len() == 4 && "method"@.len() == 6
        && "status"@.len() == 6 && "headers"@.len() == 7 && "body_handle"@.len() == 11);
    assert forall|j: int| 3 < j < props.len() implies (#[trigger] props[j]).name@ != "status"@ by {}
    lemma_property_at(props, 3);
    assert forall|j: int| 1 < j < props.len() implies (#[trigger] props[j]).name@ != "method"@ by {}
    lemma_property_at(props, 1);
    assert forall|j: int| 2 < j < props.len() implies (#[trigger] props[j]).name@ != "uri"@ by {}
    lemma_property_at(props, 2);
    assert forall|j: int| 4 < j < props.len() implies (#[trigger] props[j]).name@ != "headers"@ by {}
    lemma_property_at(props, 4);
    assert forall|j: int| 5 < j < props.len() implies (#[trigger] props[j]).name@
        != "body_handle"@ by {}
    lemma_property_at(props, 5);
    if obj.body_handle == 0 && obj.body is Some {
        lemma_property_at(props, 6);
    } else {
        assert forall|j: int| 0 <= j < props.len() implies (#[trigger] props[j]).name@
            != "body"@ by {}
        lemma_property_absent(props, "body"@);
    }
    let hs = props[4].value->Object_0@;
    lemma_headers_read_back(hs, obj.headers);
    assert(decode_http_object(v) matches Ok(back) && back.headers == obj.headers && back.status
        == obj.status && back.method == obj.method && back.uri == obj.uri && back.body_handle
        == obj.body_handle && back.body == obj.body && back.id == obj.id);
}

} // verus!
