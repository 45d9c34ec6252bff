use xstream::codec::{CommandError, Response};
use xstream::fields::{FieldMap, int_of, parse_response_to_map, text_of};
use xstream::xinfo::{RawRecord, StreamRadixTreeInfo};

#[test]
fn flatten_repeated_key_last_write_wins() {
    let items = vec![
        Response::Bytes("k".to_string()),
        Response::Integer(1),
        Response::Bytes("k".to_string()),
        Response::Integer(2),
    ];
    let m = parse_response_to_map(&items).unwrap();
    match m.get("k") {
        Some(Response::Integer(n)) => assert_eq!(*n, 2),
        other => panic!("expected the later value, got {:?}", other),
    }
}

#[test]
fn flatten_trailing_key_is_dropped() {
    let items = vec![
        Response::Bytes("k".to_string()),
        Response::Integer(1),
        Response::Bytes("tail".to_string()),
    ];
    let m = parse_response_to_map(&items).unwrap();
    assert!(m.get("k").is_some());
    assert!(m.get("tail").is_none());
}

#[test]
fn flatten_non_string_key_fails() {
    let items = vec![Response::Integer(1), Response::Integer(2)];
    match parse_response_to_map(&items) {
        Err(CommandError::Output(msg, Response::Integer(1))) => {
            assert_eq!(msg, "Unexpected Value Type, Want string")
        },
        other => panic!("expected a decode error, got {:?}", other),
    }
}

#[test]
fn flatten_status_string_is_a_valid_key() {
    let items = vec![Response::String("k".to_string()), Response::Integer(9)];
    let m = parse_response_to_map(&items).unwrap();
    assert!(m.get("k").is_some());
}

#[test]
fn field_map_insert_overwrites_in_place() {
    let mut m = FieldMap::new();
    m.insert("a".to_string(), Response::Integer(1));
    m.insert("b".to_string(), Response::Integer(2));
    m.insert("a".to_string(), Response::Integer(3));
    match m.get("a") {
        Some(Response::Integer(n)) => assert_eq!(*n, 3),
        other => panic!("expected the later value, got {:?}", other),
    }
    match m.get("b") {
        Some(Response::Integer(n)) => assert_eq!(*n, 2),
        other => panic!("expected the untouched value, got {:?}", other),
    }
}

#[test]
fn int_extractor() {
    assert_eq!(int_of(&Response::Integer(7)).unwrap(), 7);
    match int_of(&Response::Bytes("7".to_string())) {
        Err(CommandError::Output(msg, _)) => assert_eq!(msg, "Unexpected Value Type, Want i64"),
        other => panic!("expected a decode error, got {:?}", other),
    }
}

#[test]
fn text_extractor() {
    assert_eq!(text_of(&Response::Bytes("x".to_string())).unwrap(), "x");
    assert_eq!(text_of(&Response::String("OK".to_string())).unwrap(), "OK");
    match text_of(&Response::Integer(1)) {
        Err(CommandError::Output(msg, _)) => assert_eq!(msg, "Unexpected Value Type, Want string"),
        other => panic!("expected a decode error, got {:?}", other),
    }
}

#[test]
fn radix_tree_decodes_from_map() {
    let items = vec![
        Response::Bytes("radix-tree-keys".to_string()),
        Response::Integer(4),
        Response::Bytes("radix-tree-nodes".to_string()),
        Response::Integer(9),
    ];
    let m = parse_response_to_map(&items).unwrap();
    let rt = StreamRadixTreeInfo::try_from(m).unwrap();
    assert_eq!(rt.keys, 4);
    assert_eq!(rt.nodes, 9);
}

#[test]
fn radix_tree_missing_key_fails() {
    let m = FieldMap::new();
    match StreamRadixTreeInfo::try_from(m) {
        Err(CommandError::MissingField(k)) => assert_eq!(k, "radix-tree-keys"),
        other => panic!("expected a missing-field error, got {:?}", other),
    }
}

#[test]
fn raw_record_keeps_body_order_and_unique_keys() {
    let body = Response::Array(vec![
        Response::Bytes("a".to_string()),
        Response::Bytes("1".to_string()),
        Response::Bytes("b".to_string()),
        Response::Bytes("2".to_string()),
        Response::Bytes("a".to_string()),
        Response::Bytes("3".to_string()),
    ]);
    let rec = RawRecord::try_from(
        Response::Array(vec![Response::Bytes("7-0".to_string()), body]),
    )
    .unwrap();
    assert_eq!(rec.msg_id, "7-0");
    assert_eq!(
        rec.body,
        vec![("a".to_string(), "3".to_string()), ("b".to_string(), "2".to_string())]
    );
}

#[test]
fn raw_record_short_array_fails() {
    let r = RawRecord::try_from(Response::Array(vec![Response::Bytes("7-0".to_string())]));
    match r {
        Err(CommandError::Output(msg, _)) => {
            assert_eq!(msg, "Unexpected Value Type, Want id and body pair")
        },
        other => panic!("expected a decode error, got {:?}", other),
    }
}
