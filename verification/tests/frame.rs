use homestar_ledger::codec::{decode, encode};
use homestar_ledger::frame::{read_header, well_framed, Header, MAX_DEPTH};
use homestar_ledger::value::{Value, ValueMap};

#[test]
fn item_that_announces_more_than_the_input_holds_is_refused() {
    let string_bomb = [0x5b, 0xff, 0xff, 0xff, 0xff, 0xff, 0xff, 0xff, 0xff];
    let text_bomb = [0x7b, 0x7f, 0xff, 0xff, 0xff, 0xff, 0xff, 0xff, 0xff];
    let list_bomb = [0x9b, 0x00, 0xff, 0xff, 0xff, 0xff, 0xff, 0xff, 0xff];
    let map_bomb = [0xbb, 0x00, 0x00, 0x00, 0xff, 0xff, 0xff, 0xff, 0xff];
    let short_bomb = [0x9a, 0xff, 0xff, 0xff, 0xff, 0x01];
    for bytes in [
        &string_bomb[..],
        &text_bomb[..],
        &list_bomb[..],
        &map_bomb[..],
        &short_bomb[..],
    ] {
        assert!(!well_framed(bytes));
        assert!(decode(bytes).is_none());
    }
    assert!(decode(&[0x62, b'a']).is_none());
    assert!(decode(&[0x82, 0x01]).is_none());
    assert!(decode(&[0xa1, 0x61]).is_none());
    assert!(decode(&[0x19, 0x01]).is_none());
    assert!(decode(&[]).is_none());
}

#[test]
fn nesting_is_taken_up_to_the_bound() {
    assert_eq!(MAX_DEPTH, 256);
    let nested = |depth: usize| {
        let mut bytes = vec![0x81; depth];
        bytes.push(0x00);
        bytes
    };
    assert!(well_framed(&nested(255)));
    assert!(!well_framed(&nested(256)));
    assert!(!well_framed(&nested(100_000)));
    assert!(decode(&nested(100_000)).is_none());
    let mut expected = Value::Integer(0);
    for _ in 0..255 {
        expected = Value::List(vec![expected]);
    }
    assert_eq!(decode(&nested(255)).unwrap(), expected);
    assert_eq!(encode(&expected).unwrap(), nested(255));
}

#[test]
fn lists_and_maps_without_a_count_end_at_the_break() {
    assert_eq!(
        decode(&[0x9f, 0x01, 0x02, 0xff]).unwrap(),
        Value::List(vec![Value::Integer(1), Value::Integer(2)])
    );
    let mut map = ValueMap::new();
    map.insert("a".to_string(), Value::Integer(1));
    assert_eq!(
        decode(&[0xbf, 0x61, b'a', 0x01, 0xff]).unwrap(),
        Value::StringMap(map)
    );
    assert!(decode(&[0x9f, 0x01]).is_none());
    assert!(decode(&[0x81, 0xff]).is_none());
}

#[test]
fn what_follows_the_first_item_is_not_read() {
    assert_eq!(decode(&[0x01, 0x02]).unwrap(), Value::Integer(1));
    assert_eq!(decode(&[0x80, 0x5b]).unwrap(), Value::List(vec![]));
    assert!(well_framed(&[0xf6, 0xff, 0xff]));
}

#[test]
fn heads_say_where_their_items_end() {
    assert_eq!(read_header(&[0x17], 0), Header::Leaf { next: 1 });
    assert_eq!(read_header(&[0x18, 0xff], 0), Header::Leaf { next: 2 });
    assert_eq!(read_header(&[0x18], 0), Header::Bad);
    assert_eq!(
        read_header(&[0x00, 0x1b, 1, 2, 3, 4, 5, 6, 7, 8], 1),
        Header::Leaf { next: 10 }
    );
    assert_eq!(read_header(&[0x1c], 0), Header::Bad);
    assert_eq!(read_header(&[0x43, 1, 2, 3], 0), Header::Leaf { next: 4 });
    assert_eq!(read_header(&[0x43, 1, 2], 0), Header::Bad);
    assert_eq!(
        read_header(&[0x59, 0x00, 0x02, 7, 7], 0),
        Header::Leaf { next: 5 }
    );
    assert_eq!(read_header(&[0x59, 0x01, 0x02, 7, 7], 0), Header::Bad);
    assert_eq!(
        read_header(&[0x82, 0, 0], 0),
        Header::Open {
            next: 1,
            count: Some(2)
        }
    );
    assert_eq!(read_header(&[0x82, 0], 0), Header::Bad);
    assert_eq!(
        read_header(&[0xa1, 0x60, 0], 0),
        Header::Open {
            next: 1,
            count: Some(2)
        }
    );
    assert_eq!(read_header(&[0xa1, 0x60], 0), Header::Bad);
    assert_eq!(
        read_header(&[0x9f], 0),
        Header::Open {
            next: 1,
            count: None
        }
    );
    assert_eq!(
        read_header(&[0xbf], 0),
        Header::Open {
            next: 1,
            count: None
        }
    );
    assert_eq!(
        read_header(&[0xd8, 42, 0x58, 2, 0, 9], 0),
        Header::Leaf { next: 6 }
    );
    assert_eq!(read_header(&[0xd8, 42, 0x58, 0], 0), Header::Bad);
    assert_eq!(read_header(&[0xd8, 43, 0x58, 1, 0], 0), Header::Bad);
    assert_eq!(read_header(&[0xc0, 0], 0), Header::Bad);
    assert_eq!(read_header(&[0xf5], 0), Header::Leaf { next: 1 });
    assert_eq!(read_header(&[0xfa, 0, 0, 0, 0], 0), Header::Leaf { next: 5 });
    assert_eq!(read_header(&[0xfa, 0, 0, 0], 0), Header::Bad);
    assert_eq!(
        read_header(&[0xfb, 0, 0, 0, 0, 0, 0, 0, 0], 0),
        Header::Leaf { next: 9 }
    );
    assert_eq!(read_header(&[0xf9, 0, 0], 0), Header::Bad);
    assert_eq!(read_header(&[0xff], 0), Header::Bad);
    assert_eq!(read_header(&[0x00], 1), Header::Bad);
    assert_eq!(read_header(&[], 0), Header::Bad);
}

#[test]
fn bytes_of_the_encoder_are_well_framed() {
    let mut inner = ValueMap::new();
    inner.insert("k".repeat(300), Value::Bytes(vec![7; 70_000]));
    inner.insert("n".to_string(), Value::Integer(-(1i128 << 64)));
    let value = Value::List(vec![
        Value::StringMap(inner),
        Value::List((0..30).map(Value::Integer).collect()),
        Value::Link(homestar_ledger::cid::Cid::derive(b"x")),
        Value::text("text"),
    ]);
    let bytes = encode(&value).unwrap();
    assert!(well_framed(&bytes));
    assert_eq!(decode(&bytes).unwrap(), value);
}
