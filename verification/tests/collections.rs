use land_js::headers::JsHeaders;
use land_js::native::NativeHeaders;
use land_js::value::{find_property, str_eq, GuestProperty, GuestValue};

#[test]
fn js_headers_last_write_wins() {
    let mut h = JsHeaders::new();
    assert_eq!(h.len(), 0);
    assert!(h.get("a").is_none());
    assert!(h.entry(0).is_none());
    h.insert("a".into(), "1".into());
    h.insert("b".into(), "2".into());
    h.insert("a".into(), "3".into());
    assert_eq!(h.len(), 2);
    assert_eq!(h.get("a").unwrap(), "3");
    assert_eq!(h.get("b").unwrap(), "2");
    let (k, v) = h.entry(0).unwrap();
    assert_eq!((k.as_str(), v.as_str()), ("a", "3"));
    let (k, v) = h.entry(1).unwrap();
    assert_eq!((k.as_str(), v.as_str()), ("b", "2"));
    assert!(h.entry(2).is_none());
}

#[test]
fn js_headers_names_are_case_sensitive() {
    let mut h = JsHeaders::new();
    h.insert("A".into(), "1".into());
    h.insert("a".into(), "2".into());
    assert_eq!(h.len(), 2);
    assert_eq!(h.get("A").unwrap(), "1");
}

#[test]
fn native_headers_append_and_insert() {
    let mut h = NativeHeaders::new();
    h.append("a".into(), b"1".to_vec());
    h.append("b".into(), b"x".to_vec());
    h.append("a".into(), b"2".to_vec());
    h.append("c".into(), b"y".to_vec());
    h.append("a".into(), b"3".to_vec());
    assert_eq!(h.len(), 5);
    assert_eq!(h.get("a").unwrap().as_slice(), b"1");
    h.insert("a".into(), b"4".to_vec());
    assert_eq!(h.len(), 3);
    assert_eq!(h.entry(0).unwrap().0, "a");
    assert_eq!(h.entry(0).unwrap().1.as_slice(), b"4");
    assert_eq!(h.entry(1).unwrap().0, "b");
    assert_eq!(h.entry(2).unwrap().0, "c");
    h.insert("d".into(), b"5".to_vec());
    assert_eq!(h.len(), 4);
    assert_eq!(h.entry(3).unwrap().0, "d");
    assert_eq!(h.get("d").unwrap().as_slice(), b"5");
    assert!(h.get("e").is_none());
    assert!(h.entry(4).is_none());
}

#[test]
fn native_insert_agrees_with_the_header_map() {
    let lines: [(&str, &[u8]); 5] = [("a", b"1"), ("b", b"x"), ("a", b"2"), ("c", b"y"), ("a", b"3")];
    let mut ours = NativeHeaders::new();
    let mut theirs = http::HeaderMap::new();
    for (k, v) in lines {
        ours.append(k.to_string(), v.to_vec());
        theirs.append(
            http::header::HeaderName::from_bytes(k.as_bytes()).unwrap(),
            http::header::HeaderValue::from_bytes(v).unwrap(),
        );
    }
    ours.insert("a".to_string(), b"4".to_vec());
    theirs.insert(
        http::header::HeaderName::from_bytes(b"a").unwrap(),
        http::header::HeaderValue::from_bytes(b"4").unwrap(),
    );
    let mut left = Vec::new();
    let mut i = 0;
    while let Some((k, v)) = ours.entry(i) {
        left.push((k.clone(), v.clone()));
        i += 1;
    }
    let mut right: Vec<(String, Vec<u8>)> =
        theirs.iter().map(|(k, v)| (k.as_str().to_string(), v.as_bytes().to_vec())).collect();
    left.sort();
    right.sort();
    assert_eq!(left, right);
}

#[test]
fn property_lookup_takes_last_of_name() {
    let props = vec![
        GuestProperty { name: "a".into(), value: GuestValue::Int(1) },
        GuestProperty { name: "b".into(), value: GuestValue::Null },
        GuestProperty { name: "a".into(), value: GuestValue::Int(2) },
    ];
    assert!(matches!(find_property(&props, "a"), Some(GuestValue::Int(2))));
    assert!(matches!(find_property(&props, "b"), Some(GuestValue::Null)));
    assert!(find_property(&props, "c").is_none());
    assert!(find_property(&Vec::new(), "a").is_none());
}

#[test]
fn guest_numbers() {
    assert!(matches!(GuestValue::from_u64(0), GuestValue::Int(0)));
    assert!(matches!(GuestValue::from_u64(2147483647), GuestValue::Int(2147483647)));
    assert!(matches!(GuestValue::from_u64(2147483648), GuestValue::Big(2147483648)));
    assert!(matches!(GuestValue::from_u64(u64::MAX), GuestValue::Big(u64::MAX)));
}

#[test]
fn string_equality() {
    assert!(str_eq("abc", "abc"));
    assert!(!str_eq("abc", "abd"));
    assert!(!str_eq("abc", "ab"));
    assert!(str_eq("", ""));
}
