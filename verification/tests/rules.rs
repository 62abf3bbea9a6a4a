use land_js::entity::{to_guest_headers, to_native_headers, JsHttpObject};
use land_js::error::CodecError;
use land_js::headers::JsHeaders;
use land_js::native::NativeHeaders;

fn object_with_method(method: &str) -> JsHttpObject {
    JsHttpObject {
        id: 0,
        method: method.to_string(),
        uri: "/".to_string(),
        status: 200,
        headers: JsHeaders::new(),
        body_handle: 0,
        body: None,
    }
}

fn method_byte_ok(b: u8) -> bool {
    b.is_ascii_alphanumeric() || b"!*+-.^_`|~".contains(&b)
}

fn name_byte(b: u8) -> Option<u8> {
    if b.is_ascii_uppercase() {
        Some(b.to_ascii_lowercase())
    } else if b.is_ascii_lowercase() || b.is_ascii_digit() || b"!\"#$%&'*+-.^_`|~".contains(&b) {
        Some(b)
    } else {
        None
    }
}

#[test]
fn method_bytes() {
    for b in 0u8..128 {
        let method = format!("M{}", b as char);
        let r = object_with_method(&method).into_request();
        if method_byte_ok(b) {
            assert_eq!(r.ok().unwrap().method, method);
        } else {
            assert_eq!(r.err(), Some(CodecError::InvalidMethod));
        }
    }
    assert_eq!(object_with_method("m\u{e9}").into_request().err(), Some(CodecError::InvalidMethod));
}

#[test]
fn method_of_any_length() {
    let long = "X".repeat(100);
    assert_eq!(object_with_method(&long).into_request().ok().unwrap().method, long);
    assert_eq!(object_with_method("").into_request().err(), Some(CodecError::InvalidMethod));
    for m in ["GET", "PUT", "POST", "HEAD", "PATCH", "TRACE", "DELETE", "OPTIONS", "CONNECT", "get"] {
        assert_eq!(object_with_method(m).into_request().ok().unwrap().method, m);
    }
}

#[test]
fn header_name_bytes() {
    for b in 0u8..128 {
        let mut h = JsHeaders::new();
        h.insert(format!("x{}", b as char), "v".to_string());
        let r = to_native_headers(&h);
        match name_byte(b) {
            Some(lower) => {
                let lines = r.unwrap();
                assert_eq!(lines.len(), 1);
                assert_eq!(lines.entry(0).unwrap().0.as_bytes(), &[b'x', lower]);
            },
            None => assert!(r.is_none()),
        }
    }
    let mut h = JsHeaders::new();
    h.insert("caf\u{e9}".to_string(), "v".to_string());
    assert!(to_native_headers(&h).is_none());
}

#[test]
fn header_name_length() {
    for (len, ok) in [(1usize, true), (64, true), (65, true), (65535, true), (65536, false)] {
        let mut h = JsHeaders::new();
        h.insert("A".repeat(len), "v".to_string());
        match to_native_headers(&h) {
            Some(lines) => {
                assert!(ok);
                assert_eq!(lines.entry(0).unwrap().0, &"a".repeat(len));
            },
            None => assert!(!ok),
        }
    }
}

#[test]
fn standard_header_names_are_lowered() {
    let mut h = JsHeaders::new();
    h.insert("Content-Type".to_string(), "a".to_string());
    h.insert("ACCEPT-ENCODING".to_string(), "b".to_string());
    h.insert("set-cookie".to_string(), "c".to_string());
    let lines = to_native_headers(&h).unwrap();
    assert_eq!(lines.entry(0).unwrap().0, "content-type");
    assert_eq!(lines.entry(1).unwrap().0, "accept-encoding");
    assert_eq!(lines.entry(2).unwrap().0, "set-cookie");
}

#[test]
fn header_value_bytes_from_the_guest() {
    for b in 0u8..128 {
        let mut h = JsHeaders::new();
        h.insert("x".to_string(), format!("v{}", b as char));
        let ok = (b >= 32 && b != 127) || b == 9;
        match to_native_headers(&h) {
            Some(lines) => {
                assert!(ok);
                assert_eq!(lines.entry(0).unwrap().1.as_slice(), &[b'v', b]);
            },
            None => assert!(!ok),
        }
    }
}

#[test]
fn header_value_bytes_from_the_host() {
    for b in 0u8..=255 {
        let mut lines = NativeHeaders::new();
        lines.append("x".to_string(), vec![b'v', b]);
        let visible = (b >= 32 && b < 127) || b == 9;
        match to_guest_headers(&lines) {
            Some(h) => {
                assert!(visible);
                assert_eq!(h.get("x").unwrap().as_bytes(), &[b'v', b]);
            },
            None => assert!(!visible),
        }
    }
}

#[test]
fn empty_header_value_is_admitted() {
    let mut h = JsHeaders::new();
    h.insert("x".to_string(), String::new());
    assert_eq!(to_native_headers(&h).unwrap().entry(0).unwrap().1.len(), 0);
    let mut lines = NativeHeaders::new();
    lines.append("x".to_string(), Vec::new());
    assert_eq!(to_guest_headers(&lines).unwrap().get("x").unwrap(), "");
}

#[test]
fn status_codes() {
    for code in [0u16, 1, 99, 100, 200, 599, 600, 999, 1000, 65535] {
        let mut obj = object_with_method("GET");
        obj.status = code;
        let r = obj.into_response();
        if (100..1000).contains(&code) {
            assert_eq!(r.ok().unwrap().status, code);
        } else {
            assert_eq!(r.err(), Some(CodecError::InvalidStatus));
        }
    }
}

#[test]
fn uris() {
    for uri in ["/", "*", "/a/b?c=d", "http://example.com", "https://www.rust-lang.org/", "example.com:80"] {
        let mut obj = object_with_method("GET");
        obj.uri = uri.to_string();
        assert_eq!(obj.into_request().ok().unwrap().uri, uri);
    }
    for uri in ["", "/a b", "http://", "/\u{7f}"] {
        let mut obj = object_with_method("GET");
        obj.uri = uri.to_string();
        assert_eq!(obj.into_request().err(), Some(CodecError::InvalidUri));
    }
}
