use land_js::entity::JsHttpObject;
use land_js::error::ShapeError;
use land_js::headers::JsHeaders;
use land_js::options::{JsFetchOptions, RedirectPolicy, DEFAULT_TIMEOUT};
use land_js::shape::{copy_bytes, get_field};
use land_js::value::{GuestProperty, GuestValue};

fn prop(name: &str, value: GuestValue) -> GuestProperty {
    GuestProperty { name: name.to_string(), value }
}

fn text(s: &str) -> GuestValue {
    GuestValue::Text(s.to_string())
}

fn object(props: Vec<GuestProperty>) -> GuestValue {
    GuestValue::Object(props)
}

fn minimal() -> Vec<GuestProperty> {
    vec![prop("headers", object(vec![]))]
}

fn with(mut props: Vec<GuestProperty>, name: &str, value: GuestValue) -> GuestValue {
    props.push(prop(name, value));
    object(props)
}

#[test]
fn absent_fields_take_defaults() {
    let obj = JsHttpObject::from_js(&object(minimal())).unwrap();
    assert_eq!(obj.id, 0);
    assert_eq!(obj.method, "GET");
    assert_eq!(obj.uri, "/");
    assert_eq!(obj.status, 0);
    assert_eq!(obj.headers.len(), 0);
    assert_eq!(obj.body_handle, 0);
    assert!(obj.body.is_none());
}

#[test]
fn undefined_fields_take_defaults() {
    let v = object(vec![
        prop("status", GuestValue::Undefined),
        prop("method", GuestValue::Undefined),
        prop("uri", GuestValue::Undefined),
        prop("headers", object(vec![])),
        prop("body_handle", GuestValue::Undefined),
        prop("body", GuestValue::Undefined),
    ]);
    let obj = JsHttpObject::from_js(&v).unwrap();
    assert_eq!(obj.method, "GET");
    assert_eq!(obj.uri, "/");
    assert_eq!(obj.status, 0);
    assert_eq!(obj.body_handle, 0);
    assert!(obj.body.is_none());
}

#[test]
fn full_object_is_read() {
    let v = object(vec![
        prop("id", GuestValue::Int(9)),
        prop("status", GuestValue::Int(200)),
        prop("method", text("POST")),
        prop("uri", text("/submit")),
        prop("headers", object(vec![prop("Content-Type", text("text/plain")), prop("x", text("y"))])),
        prop("body_handle", GuestValue::Int(0)),
        prop("body", GuestValue::Bytes(b"Hello World!".to_vec())),
    ]);
    let obj = JsHttpObject::from_js(&v).unwrap();
    assert_eq!(obj.id, 0);
    assert_eq!(obj.status, 200);
    assert_eq!(obj.method, "POST");
    assert_eq!(obj.uri, "/submit");
    assert_eq!(obj.headers.len(), 2);
    assert_eq!(obj.headers.get("Content-Type").unwrap(), "text/plain");
    assert_eq!(obj.headers.get("x").unwrap(), "y");
    assert_eq!(obj.body_handle, 0);
    assert_eq!(obj.body.as_deref(), Some(&b"Hello World!"[..]));
}

#[test]
fn handle_is_read_and_empty_buffer_is_no_body() {
    let v = with(minimal(), "body_handle", GuestValue::Int(12));
    let obj = JsHttpObject::from_js(&v).unwrap();
    assert_eq!(obj.body_handle, 12);
    assert!(obj.body.is_none());
    let v = with(minimal(), "body", GuestValue::Bytes(vec![]));
    assert!(JsHttpObject::from_js(&v).unwrap().body.is_none());
    let mut props = minimal();
    props.push(prop("body_handle", GuestValue::Int(12)));
    let v = with(props, "body", GuestValue::Bytes(vec![]));
    assert_eq!(JsHttpObject::from_js(&v).unwrap().body_handle, 12);
}

#[test]
fn negative_handle_wraps() {
    let v = with(minimal(), "body_handle", GuestValue::Int(-1));
    assert_eq!(JsHttpObject::from_js(&v).unwrap().body_handle, u32::MAX);
}

#[test]
fn status_is_cut_to_sixteen_bits_and_defaults_to_zero() {
    let v = with(minimal(), "status", GuestValue::Int(65536 + 404));
    assert_eq!(JsHttpObject::from_js(&v).unwrap().status, 404);
    let v = with(minimal(), "status", text("200"));
    assert_eq!(JsHttpObject::from_js(&v).unwrap().status, 0);
    let v = with(minimal(), "status", GuestValue::Big(4294967296));
    assert_eq!(JsHttpObject::from_js(&v).unwrap().status, 0);
}

#[test]
fn not_an_object() {
    for v in [GuestValue::Undefined, GuestValue::Null, GuestValue::Int(1), text("x"), GuestValue::Function] {
        assert_eq!(JsHttpObject::from_js(&v).err(), Some(ShapeError::NotAnObject));
    }
}

#[test]
fn headers_must_be_an_object() {
    assert_eq!(JsHttpObject::from_js(&object(vec![])).err(), Some(ShapeError::HeadersNotObject));
    let v = object(vec![prop("headers", GuestValue::Null)]);
    assert_eq!(JsHttpObject::from_js(&v).err(), Some(ShapeError::HeadersNotObject));
    let v = object(vec![prop("headers", text("a: b"))]);
    assert_eq!(JsHttpObject::from_js(&v).err(), Some(ShapeError::HeadersNotObject));
}

#[test]
fn header_values_must_be_text() {
    let v = object(vec![prop("headers", object(vec![prop("a", text("1")), prop("b", GuestValue::Int(2))]))]);
    assert_eq!(JsHttpObject::from_js(&v).err(), Some(ShapeError::HeaderValueNotText));
}

#[test]
fn method_and_uri_must_be_text() {
    let v = with(minimal(), "method", GuestValue::Int(1));
    assert_eq!(JsHttpObject::from_js(&v).err(), Some(ShapeError::MethodNotText));
    let v = with(minimal(), "method", GuestValue::Null);
    assert_eq!(JsHttpObject::from_js(&v).err(), Some(ShapeError::MethodNotText));
    let v = with(minimal(), "uri", GuestValue::Bool(true));
    assert_eq!(JsHttpObject::from_js(&v).err(), Some(ShapeError::UriNotText));
}

#[test]
fn body_handle_must_be_int() {
    let v = with(minimal(), "body_handle", text("1"));
    assert_eq!(JsHttpObject::from_js(&v).err(), Some(ShapeError::BodyHandleNotInt));
    let v = with(minimal(), "body_handle", GuestValue::Big(3000000000));
    assert_eq!(JsHttpObject::from_js(&v).err(), Some(ShapeError::BodyHandleNotInt));
}

#[test]
fn body_must_be_bytes() {
    let v = with(minimal(), "body", text("hello"));
    assert_eq!(JsHttpObject::from_js(&v).err(), Some(ShapeError::BodyNotBytes));
    let v = with(minimal(), "body", GuestValue::Null);
    assert_eq!(JsHttpObject::from_js(&v).err(), Some(ShapeError::BodyNotBytes));
}

#[test]
fn handle_and_payload_together_are_rejected() {
    let mut props = minimal();
    props.push(prop("body_handle", GuestValue::Int(3)));
    let v = with(props, "body", GuestValue::Bytes(vec![1, 2, 3]));
    assert_eq!(JsHttpObject::from_js(&v).err(), Some(ShapeError::BodyAmbiguous));
}

#[test]
fn violations_are_reported_in_field_order() {
    let v = object(vec![
        prop("body", text("x")),
        prop("body_handle", text("x")),
        prop("uri", GuestValue::Int(1)),
        prop("method", GuestValue::Int(1)),
    ]);
    assert_eq!(JsHttpObject::from_js(&v).err(), Some(ShapeError::MethodNotText));
    let v = object(vec![prop("body", text("x")), prop("uri", GuestValue::Int(1))]);
    assert_eq!(JsHttpObject::from_js(&v).err(), Some(ShapeError::UriNotText));
    let v = object(vec![prop("body", text("x")), prop("body_handle", text("x"))]);
    assert_eq!(JsHttpObject::from_js(&v).err(), Some(ShapeError::HeadersNotObject));
    let mut props = minimal();
    props.push(prop("body", text("x")));
    let v = with(props, "body_handle", text("x"));
    assert_eq!(JsHttpObject::from_js(&v).err(), Some(ShapeError::BodyHandleNotInt));
}

#[test]
fn shape_error_messages() {
    assert_eq!(ShapeError::NotAnObject.message(), "JsHttpObject need from an object");
    assert_eq!(ShapeError::MethodNotText.message(), "method is not a string");
    assert_eq!(ShapeError::UriNotText.message(), "uri is not a string");
    assert_eq!(ShapeError::HeadersNotObject.message(), "headers is not an object");
    assert_eq!(ShapeError::HeaderValueNotText.message(), "header value is not a string");
    assert_eq!(ShapeError::BodyHandleNotInt.message(), "body_handle is not an int");
    assert_eq!(ShapeError::BodyNotBytes.message(), "body is not an arraybuffer?");
    assert_eq!(ShapeError::BodyAmbiguous.message(), "body and body_handle are both set");
    assert_eq!(ShapeError::OptionsNotObject.message(), "JsFetchOptions need from an object");
    assert_eq!(ShapeError::RedirectNotText.message(), "redirect is not a string");
}

fn props_of(v: &GuestValue) -> &Vec<GuestProperty> {
    match v {
        GuestValue::Object(p) => p,
        _ => panic!("not an object"),
    }
}

#[test]
fn object_is_written_for_the_guest() {
    let mut headers = JsHeaders::new();
    headers.insert("a".into(), "1".into());
    headers.insert("b".into(), "2".into());
    let obj = JsHttpObject {
        id: 5,
        method: "POST".into(),
        uri: "/x".into(),
        status: 201,
        headers,
        body_handle: 0,
        body: Some(b"abc".to_vec()),
    };
    let v = obj.into_js();
    let props = props_of(&v);
    let names: Vec<&str> = props.iter().map(|p| p.name.as_str()).collect();
    assert_eq!(names, vec!["id", "method", "uri", "status", "headers", "body_handle", "body"]);
    assert!(matches!(props[0].value, GuestValue::Int(5)));
    assert!(matches!(&props[1].value, GuestValue::Text(s) if s == "POST"));
    assert!(matches!(&props[2].value, GuestValue::Text(s) if s == "/x"));
    assert!(matches!(props[3].value, GuestValue::Int(201)));
    let hs = props_of(&props[4].value);
    assert_eq!(hs.len(), 2);
    assert_eq!(hs[0].name, "a");
    assert!(matches!(&hs[0].value, GuestValue::Text(s) if s == "1"));
    assert_eq!(hs[1].name, "b");
    assert!(matches!(&hs[1].value, GuestValue::Text(s) if s == "2"));
    assert!(matches!(props[5].value, GuestValue::Int(0)));
    assert!(matches!(&props[6].value, GuestValue::Bytes(b) if b.as_slice() == b"abc"));
}

#[test]
fn object_with_handle_has_no_body_property() {
    let obj = JsHttpObject {
        id: 0,
        method: "GET".into(),
        uri: "/".into(),
        status: 0,
        headers: JsHeaders::new(),
        body_handle: 4000000000,
        body: Some(b"abc".to_vec()),
    };
    let v = obj.into_js();
    let props = props_of(&v);
    assert_eq!(props.len(), 6);
    assert!(matches!(props[5].value, GuestValue::Big(4000000000)));
    let obj = JsHttpObject {
        id: 0,
        method: "GET".into(),
        uri: "/".into(),
        status: 0,
        headers: JsHeaders::new(),
        body_handle: 0,
        body: None,
    };
    assert_eq!(props_of(&obj.into_js()).len(), 6);
}

#[test]
fn written_object_reads_back() {
    let mut headers = JsHeaders::new();
    headers.insert("k".into(), "v".into());
    let obj = JsHttpObject {
        id: 0,
        method: "PUT".into(),
        uri: "/r".into(),
        status: 202,
        headers,
        body_handle: 17,
        body: None,
    };
    let back = JsHttpObject::from_js(&obj.into_js()).unwrap();
    assert_eq!(back.method, "PUT");
    assert_eq!(back.uri, "/r");
    assert_eq!(back.status, 202);
    assert_eq!(back.body_handle, 17);
    assert_eq!(back.headers.get("k").unwrap(), "v");
}

#[test]
fn fetch_options_defaults() {
    let o = JsFetchOptions::from_js(&object(vec![])).unwrap();
    assert_eq!(o.timeout, 30);
    assert_eq!(o.redirect, "follow");
    assert_eq!(o.policy(), RedirectPolicy::Follow);
    let n = JsFetchOptions::new();
    assert_eq!(n.timeout, DEFAULT_TIMEOUT);
    assert_eq!(n.redirect, "follow");
}

#[test]
fn default_fetch_options() {
    let o = JsFetchOptions::default();
    assert_eq!(o.timeout, 30);
    assert_eq!(o.redirect, "follow");
    assert_eq!(o.policy(), RedirectPolicy::Follow);
    assert!(format!("{:?}", o).contains("JsFetchOptions"));
}

#[test]
fn fetch_options_are_read() {
    let v = object(vec![prop("timeout", GuestValue::Int(5)), prop("redirect", text("manual"))]);
    let o = JsFetchOptions::from_js(&v).unwrap();
    assert_eq!(o.timeout, 5);
    assert_eq!(o.redirect, "manual");
    assert_eq!(o.policy(), RedirectPolicy::Manual);
    let v = object(vec![prop("timeout", text("5")), prop("redirect", text("error"))]);
    let o = JsFetchOptions::from_js(&v).unwrap();
    assert_eq!(o.timeout, 30);
    assert_eq!(o.policy(), RedirectPolicy::Error);
}

#[test]
fn unknown_redirect_falls_back_to_follow() {
    let v = object(vec![prop("redirect", text("whatever"))]);
    let o = JsFetchOptions::from_js(&v).unwrap();
    assert_eq!(o.redirect, "whatever");
    assert_eq!(o.policy(), RedirectPolicy::Follow);
    let v = object(vec![prop("redirect", text("Manual"))]);
    assert_eq!(JsFetchOptions::from_js(&v).unwrap().policy(), RedirectPolicy::Follow);
}

#[test]
fn fetch_options_shape_errors() {
    assert_eq!(JsFetchOptions::from_js(&GuestValue::Null).err(), Some(ShapeError::OptionsNotObject));
    assert_eq!(JsFetchOptions::from_js(&GuestValue::Undefined).err(), Some(ShapeError::OptionsNotObject));
    let v = object(vec![prop("redirect", GuestValue::Int(1))]);
    assert_eq!(JsFetchOptions::from_js(&v).err(), Some(ShapeError::RedirectNotText));
}

#[test]
fn negative_timeout_wraps() {
    let v = object(vec![prop("timeout", GuestValue::Int(-1))]);
    assert_eq!(JsFetchOptions::from_js(&v).unwrap().timeout, u32::MAX);
}

#[test]
fn field_reads_undefined_where_absent() {
    let props = vec![prop("a", GuestValue::Int(1))];
    assert!(matches!(get_field(&props, "a"), GuestValue::Int(1)));
    assert!(matches!(get_field(&props, "b"), GuestValue::Undefined));
}

#[test]
fn bytes_are_copied() {
    assert_eq!(copy_bytes(&vec![1, 2, 3]), vec![1, 2, 3]);
    assert_eq!(copy_bytes(&Vec::new()), Vec::<u8>::new());
}
