//! The rules of the `http` crate that the codec relies on. No function of this file is
//! proved: each states what the named `http` function does, as that crate's source shows it.

use vstd::prelude::*;
use vstd::utf8::encode_utf8;

verus! {

/// A byte that `http::Method::from_bytes` admits in a method: a letter, a digit, or one of
/// ``! * + - . ^ _ ` | ~``.
pub open spec fn method_byte_ok(b: u8) -> bool {
    b == 33 || b == 42 || b == 43 || b == 45 || b == 46 || (48 <= b <= 57) || (65 <= b <= 90) || (94
        <= b <= 122) || b == 124 || b == 126
}

/// Whether `http::Method::from_bytes` accepts `bytes` as a request method: they are not empty
/// and each of them is admitted.
pub open spec fn method_ok(bytes: Seq<u8>) -> bool {
    bytes.len() > 0 && forall|i: int| 0 <= i < bytes.len() ==> method_byte_ok(#[trigger] bytes[i])
}

/// Whether the text is a request method.
pub open spec fn method_accepts(text: Seq<char>) -> bool {
    method_ok(encode_utf8(text))
}

/// Whether `http::Uri` parses from `text`.
pub uninterp spec fn uri_accepts(text: Seq<char>) -> bool;

/// What `http::HeaderName::from_bytes` makes of one byte of a header name: an upper-case
/// letter becomes lower case; a lower-case letter, a digit and each of
/// ``! " # $ % & ' * + - . ^ _ ` | ~`` stay; every other byte is refused, shown here as 0.
pub open spec fn header_name_byte(b: u8) -> u8 {
    if 65 <= b <= 90 {
        (b + 32) as u8
    } else if (33 <= b <= 39) || b == 42 || b == 43 || b == 45 || b == 46 || (48 <= b <= 57) || (94
        <= b <= 122) || b == 124 || b == 126 {
        b
    } else {
        0
    }
}

/// Longest header name that `http` holds.
pub const MAX_HEADER_NAME_LEN: usize = 65535;

/// Whether `http::HeaderName::from_bytes` accepts `bytes`: between one byte and the maximum
/// length, none of them refused.
pub open spec fn header_name_ok(bytes: Seq<u8>) -> bool {
    1 <= bytes.len() <= MAX_HEADER_NAME_LEN && forall|i: int|
        0 <= i < bytes.len() ==> header_name_byte(#[trigger] bytes[i]) != 0
}

/// The text of the header name that `http::HeaderName::from_bytes` returns for accepted
/// bytes: the bytes in lower case.
pub open spec fn header_name_lower(bytes: Seq<u8>) -> Seq<char> {
    Seq::new(bytes.len(), |i: int| header_name_byte(bytes[i]) as char)
}

/// The normalized (lower-case) header name for `text`, or `None` where the text is no
/// header name.
pub open spec fn header_name_of(text: Seq<char>) -> Option<Seq<char>> {
    if header_name_ok(encode_utf8(text)) {
        Some(header_name_lower(encode_utf8(text)))
    } else {
        None
    }
}

/// A byte that `http::HeaderValue::from_bytes` admits: 32 and above except DEL, or a tab.
pub open spec fn value_byte_ok(b: u8) -> bool {
    (b >= 32 && b != 127) || b == 9
}

/// A byte that `http::HeaderValue::to_str` admits: visible ASCII, a space or a tab.
pub open spec fn value_byte_visible(b: u8) -> bool {
    (b >= 32 && b < 127) || b == 9
}

/// Every byte is admitted in a header value.
pub open spec fn value_ok(bytes: Seq<u8>) -> bool {
    forall|i: int| 0 <= i < bytes.len() ==> value_byte_ok(#[trigger] bytes[i])
}

/// Every byte is admitted in a header value and can be shown as text.
pub open spec fn value_visible(bytes: Seq<u8>) -> bool {
    forall|i: int| 0 <= i < bytes.len() ==> value_byte_visible(#[trigger] bytes[i])
}

/// Whether a status code is one that `http::StatusCode::from_u16` accepts.
pub open spec fn status_ok(code: u16) -> bool {
    100 <= code < 1000
}

/// Calls `http::Method::from_bytes` and reports whether it returned a method. That function
/// refuses the empty slice and any slice with a byte outside its table of method
/// characters, and accepts every other slice, of whatever length.
#[verifier::external_body]
pub(crate) fn method_accepted(bytes: &[u8]) -> (ok: bool)
    ensures
        ok == method_ok(bytes@),
{
    http::Method::from_bytes(bytes).is_ok()
}

/// Parses `text` as an `http::Uri` (its `FromStr` impl) and reports whether that succeeded.
/// The contract only gives that outcome its name.
#[verifier::external_body]
pub(crate) fn uri_accepted(text: &str) -> (ok: bool)
    ensures
        ok == uri_accepts(text@),
{
    text.parse::<http::Uri>().is_ok()
}

/// Calls `http::HeaderName::from_bytes` and returns the text of the resulting name
/// (`HeaderName::as_str`), or `None` where the name is refused. That function refuses the
/// empty slice, a slice longer than 65535 bytes and any slice with a byte outside its table
/// of header characters; for every other slice it returns the name whose text is the slice
/// with upper-case letters turned to lower case.
#[verifier::external_body]
pub(crate) fn header_name_lowered(bytes: &[u8]) -> (r: Option<String>)
    ensures
        r is Some <==> header_name_ok(bytes@),
        r matches Some(name) ==> name@ == header_name_lower(bytes@),
{
    match http::header::HeaderName::from_bytes(bytes) {
        Ok(name) => Some(name.as_str().to_string()),
        Err(_) => None,
    }
}

/// Calls `http::HeaderValue::from_bytes` and reports whether it returned a value. That
/// function scans the bytes and rejects the first one that is below 32 and not a tab, or
/// is 127; it accepts everything else.
#[verifier::external_body]
pub(crate) fn header_value_accepted(bytes: &[u8]) -> (ok: bool)
    ensures
        ok == value_ok(bytes@),
{
    http::header::HeaderValue::from_bytes(bytes).is_ok()
}

/// Builds an `http::HeaderValue` from `bytes` and returns what `HeaderValue::to_str` gives for
/// it. `to_str` succeeds exactly when every byte is visible ASCII, a space or a tab (bytes
/// that `from_bytes` accepts too), and then returns those same bytes as a string.
#[verifier::external_body]
pub(crate) fn header_value_text(bytes: &[u8]) -> (r: Option<String>)
    ensures
        r is Some <==> value_visible(bytes@),
        r matches Some(text) ==> encode_utf8(text@) == bytes@,
{
    match http::header::HeaderValue::from_bytes(bytes) {
        Ok(value) => match value.to_str() {
            Ok(text) => Some(text.to_string()),
            Err(_) => None,
        },
        Err(_) => None,
    }
}

/// Calls `http::StatusCode::from_u16` and reports whether it returned a status code. That
/// function accepts the codes from 100 to 999 and no others.
#[verifier::external_body]
pub(crate) fn status_accepted(code: u16) -> (ok: bool)
    ensures
        ok == status_ok(code),
{
    http::StatusCode::from_u16(code).is_ok()
}

} // verus!
