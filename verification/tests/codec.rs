use homestar_ledger::cid::Cid;
use homestar_ledger::codec::{decode, encode};
use homestar_ledger::value::{Value, ValueMap};

#[test]
fn canonical_bytes_round_trip() {
    let cid = Cid::derive(b"beep boop");
    let mut map = ValueMap::new();
    map.insert("number".to_string(), Value::Integer(1));
    map.insert(
        "list".to_string(),
        Value::List(vec![Value::Bool(true), Value::Null, Value::Bool(false)]),
    );
    map.insert("bytes".to_string(), Value::Bytes(vec![0, 1, 2, 3]));
    map.insert("link".to_string(), Value::Link(cid));
    let value = Value::StringMap(map);
    let bytes = encode(&value).unwrap();
    let back = decode(&bytes).unwrap();
    assert!(back == value);
}

#[test]
fn integer_beyond_64_bits_is_not_encodable() {
    assert!(encode(&Value::Integer(1i128 << 64)).is_none());
    assert!(encode(&Value::Integer(-(1i128 << 64) - 1)).is_none());
    assert!(encode(&Value::Integer((1i128 << 64) - 1)).is_some());
    assert!(encode(&Value::Integer(-(1i128 << 64))).is_some());
}

#[test]
fn canonical_bytes_of_small_values() {
    assert_eq!(encode(&Value::Integer(1)).unwrap(), vec![0x01]);
    assert_eq!(encode(&Value::Integer(-1)).unwrap(), vec![0x20]);
    assert_eq!(encode(&Value::Null).unwrap(), vec![0xf6]);
    assert_eq!(encode(&Value::Bool(true)).unwrap(), vec![0xf5]);
    assert_eq!(
        encode(&Value::text("ok")).unwrap(),
        vec![0x62, b'o', b'k']
    );
    assert_eq!(encode(&Value::List(vec![])).unwrap(), vec![0x80]);
    assert_eq!(decode(&[0x01]).unwrap(), Value::Integer(1));
    assert_eq!(decode(&[0x62, b'o', b'k']).unwrap(), Value::text("ok"));
}

#[test]
fn map_keys_are_encoded_in_sorted_order_whatever_the_order_of_insertion() {
    let mut forward = ValueMap::new();
    forward.insert("a".to_string(), Value::Integer(1));
    forward.insert("b".to_string(), Value::Integer(2));
    let mut backward = ValueMap::new();
    backward.insert("b".to_string(), Value::Integer(2));
    backward.insert("a".to_string(), Value::Integer(1));
    assert!(forward == backward);
    let bytes = encode(&Value::StringMap(forward)).unwrap();
    assert_eq!(bytes, vec![0xa2, 0x61, b'a', 0x01, 0x61, b'b', 0x02]);
    assert_eq!(encode(&Value::StringMap(backward)).unwrap(), bytes);
}

#[test]
fn bytes_that_hold_a_floating_point_number_are_not_taken() {
    assert!(decode(&[0xfb, 0x3f, 0xf0, 0, 0, 0, 0, 0, 0]).is_none());
    assert!(decode(&[0x81, 0xfa, 0x3f, 0x80, 0, 0]).is_none());
}

#[test]
fn json_shows_links_by_their_text() {
    let cid = Cid::derive(b"linked");
    let mut map = ValueMap::new();
    map.insert("to".to_string(), Value::Link(cid.clone()));
    map.insert("n".to_string(), Value::Integer(-7));
    map.insert("list".to_string(), Value::List(vec![Value::Link(cid.clone()), Value::Null]));
    let json = homestar_ledger::codec::to_json(&Value::StringMap(map)).unwrap();
    assert_eq!(
        json,
        format!(
            r#"{{"list":[{{"/":"{}"}},null],"n":-7,"to":{{"/":"{}"}}}}"#,
            cid.to_string(),
            cid.to_string()
        )
    );
    assert_eq!(
        homestar_ledger::codec::to_json(&Value::text("héllo")).unwrap(),
        "\"héllo\""
    );
}

#[test]
fn readable_form_replaces_links_only() {
    let cid = Cid::derive(b"linked");
    let mut shown = ValueMap::new();
    shown.insert("/".to_string(), Value::String(cid.to_string()));
    assert_eq!(Value::Link(cid.clone()).readable(), Value::StringMap(shown));
    assert_eq!(Value::Integer(3).readable(), Value::Integer(3));
    assert_eq!(
        Value::List(vec![Value::Bytes(vec![9]), Value::text("x")]).readable(),
        Value::List(vec![Value::Bytes(vec![9]), Value::text("x")])
    );
}
