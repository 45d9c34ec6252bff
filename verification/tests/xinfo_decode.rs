use xstream::{XInfo, XInfoType};
use xstream::codec::{CommandError, Request, Response};
use xstream::xinfo::{StreamEntriesInfo, StreamGroupsInfo, XInfoCommand, XInfoItem};

fn tokens(req: Request) -> Vec<String> {
    match req {
        Request::Array(items) => items
            .into_iter()
            .map(|part| match part {
                Request::Text(s) => s,
                Request::Number(n) => n.to_string(),
                Request::Array(_) => panic!("nested array in a flat frame"),
            })
            .collect(),
        _ => panic!("expected an array frame"),
    }
}

fn bytes(s: &str) -> Response {
    Response::Bytes(s.to_string())
}

fn record(id: &str, field: &str, value: &str) -> Response {
    Response::Array(vec![
        bytes(id),
        Response::Array(vec![bytes(field), bytes(value)]),
    ])
}

#[test]
fn xinfo_stream_request_tokens() {
    let toks = tokens(XInfo("cube.test".to_string(), XInfoType::Stream(None)).to_request());
    assert_eq!(toks, vec!["XINFO", "STREAM", "cube.test"]);
}

#[test]
fn xinfo_stream_full_request_tokens() {
    let toks = tokens(
        XInfo("cube.test".to_string(), XInfoType::Stream(Some(10))).full().to_request(),
    );
    assert_eq!(toks, vec!["XINFO", "STREAM", "cube.test", "FULL", "10"]);
}

#[test]
fn xinfo_groups_request_tokens() {
    let toks = tokens(XInfo("cube.test".to_string(), XInfoType::Groups).to_request());
    assert_eq!(toks, vec!["XINFO", "GROUPS", "cube.test"]);
}

#[test]
fn xinfo_consumers_request_tokens() {
    let toks = tokens(
        XInfo("cube.test".to_string(), XInfoType::Consumers("test".to_string())).to_request(),
    );
    assert_eq!(toks, vec!["XINFO", "CONSUMERS", "cube.test", "test"]);
}

#[test]
fn xinfo_full_flag_is_inert_for_groups() {
    let plain = tokens(XInfo("k".to_string(), XInfoType::Groups).to_request());
    let full = tokens(XInfo("k".to_string(), XInfoType::Groups).full().to_request());
    assert_eq!(plain, full);
}

#[test]
fn xinfo_stream_reply_with_count_and_simple_entries() {
    let reply = Response::Array(vec![
        bytes("length"),
        Response::Integer(5),
        bytes("last-generated-id"),
        bytes("5-1"),
        bytes("entries-added"),
        Response::Integer(6),
        bytes("groups"),
        Response::Integer(3),
        bytes("radix-tree-keys"),
        Response::Integer(1),
        bytes("radix-tree-nodes"),
        Response::Integer(2),
        bytes("first-entry"),
        record("1-0", "a", "1"),
        bytes("last-entry"),
        record("5-1", "b", "2"),
    ]);
    match XInfoCommand::to_output(reply) {
        Ok(XInfoItem::Stream(s)) => {
            assert_eq!(s.length, 5);
            assert_eq!(s.last_generated_id, "5-1");
            assert!(s.max_deleted_entry_id.is_none());
            assert!(s.recorded_first_entry_id.is_none());
            assert_eq!(s.entries_added, 6);
            assert_eq!(s.radix_tree.keys, 1);
            assert_eq!(s.radix_tree.nodes, 2);
            match s.groups {
                StreamGroupsInfo::Simple(n) => assert_eq!(n, 3),
                other => panic!("expected the cheap count, got {:?}", other),
            }
            match s.entries_info {
                StreamEntriesInfo::Simple { first, last } => {
                    assert_eq!(first.msg_id, "1-0");
                    assert_eq!(first.body, vec![("a".to_string(), "1".to_string())]);
                    assert_eq!(last.msg_id, "5-1");
                },
                other => panic!("expected the representative pair, got {:?}", other),
            }
        },
        other => panic!("expected a stream info, got {:?}", other),
    }
}

#[test]
fn xinfo_stream_reply_with_detail_and_full_entries() {
    let consumer = Response::Array(vec![
        bytes("name"),
        bytes("c1"),
        bytes("seen-time"),
        Response::Integer(123),
        bytes("pel-count"),
        Response::Integer(4),
    ]);
    let group = Response::Array(vec![
        bytes("name"),
        bytes("g1"),
        bytes("last-delivered-id"),
        bytes("5-1"),
        bytes("entries-read"),
        Response::Integer(7),
        bytes("lag"),
        Response::Integer(0),
        bytes("pel-count"),
        Response::Integer(4),
        bytes("consumers"),
        Response::Array(vec![consumer]),
    ]);
    let reply = Response::Array(vec![
        bytes("length"),
        Response::Integer(1),
        bytes("last-generated-id"),
        bytes("5-1"),
        bytes("max-deleted-entry-id"),
        bytes("2-0"),
        bytes("entries-added"),
        Response::Integer(1),
        bytes("groups"),
        Response::Array(vec![group]),
        bytes("radix-tree-keys"),
        Response::Integer(1),
        bytes("radix-tree-nodes"),
        Response::Integer(2),
        bytes("entries"),
        Response::Array(vec![record("5-1", "f", "v")]),
    ]);
    match XInfoCommand::to_output(reply) {
        Ok(XInfoItem::Stream(s)) => {
            assert_eq!(s.max_deleted_entry_id.as_deref(), Some("2-0"));
            match s.groups {
                StreamGroupsInfo::Full(gs) => {
                    assert_eq!(gs.len(), 1);
                    assert_eq!(gs[0].name, "g1");
                    assert_eq!(gs[0].last_delivered_id, "5-1");
                    assert_eq!(gs[0].entries_read, Some(7));
                    assert_eq!(gs[0].lag, 0);
                    assert_eq!(gs[0].pel_count, 4);
                    assert_eq!(gs[0].consumers.len(), 1);
                    assert_eq!(gs[0].consumers[0].name, "c1");
                    assert_eq!(gs[0].consumers[0].seen_time, 123);
                    assert_eq!(gs[0].consumers[0].pel_count, 4);
                },
                other => panic!("expected the detail list, got {:?}", other),
            }
            match s.entries_info {
                StreamEntriesInfo::Full(rs) => {
                    assert_eq!(rs.len(), 1);
                    assert_eq!(rs[0].msg_id, "5-1");
                },
                other => panic!("expected the full entry list, got {:?}", other),
            }
        },
        other => panic!("expected a stream info, got {:?}", other),
    }
}

#[test]
fn xinfo_groups_reply_decodes() {
    let group = Response::Array(vec![
        bytes("name"),
        bytes("g1"),
        bytes("consumers"),
        Response::Integer(2),
        bytes("pending"),
        Response::Integer(1),
        bytes("last-delivered-id"),
        bytes("5-1"),
        bytes("lag"),
        Response::Integer(0),
    ]);
    match XInfoCommand::to_output(Response::Array(vec![group])) {
        Ok(XInfoItem::Groups(gs)) => {
            assert_eq!(gs.len(), 1);
            assert_eq!(gs[0].name, "g1");
            assert_eq!(gs[0].consumers, 2);
            assert_eq!(gs[0].pending, 1);
            assert_eq!(gs[0].last_delivered_id, "5-1");
            assert_eq!(gs[0].lag, 0);
            assert_eq!(gs[0].entries_read, None);
        },
        other => panic!("expected a groups list, got {:?}", other),
    }
}

#[test]
fn xinfo_consumers_reply_decodes() {
    let consumer = Response::Array(vec![
        bytes("name"),
        bytes("c1"),
        bytes("pending"),
        Response::Integer(2),
        bytes("idle"),
        Response::Integer(5),
    ]);
    match XInfoCommand::parse_consumers_response(Response::Array(vec![consumer])) {
        Ok(XInfoItem::Consumers(cs)) => {
            assert_eq!(cs.len(), 1);
            assert_eq!(cs[0].name, "c1");
            assert_eq!(cs[0].pending, 2);
            assert_eq!(cs[0].idle, 5);
        },
        other => panic!("expected a consumers list, got {:?}", other),
    }
}

#[test]
fn xinfo_negative_consumer_counter_fails() {
    let consumer = Response::Array(vec![
        bytes("name"),
        bytes("c1"),
        bytes("pending"),
        Response::Integer(-1),
        bytes("idle"),
        Response::Integer(5),
    ]);
    match XInfoCommand::parse_consumers_response(Response::Array(vec![consumer])) {
        Err(CommandError::Output(msg, Response::Integer(n))) => {
            assert_eq!(msg, "Unexpected Value Type, Want usize");
            assert_eq!(n, -1);
        },
        other => panic!("expected a decode error, got {:?}", other),
    }
}

#[test]
fn xinfo_non_array_reply_fails() {
    match XInfoCommand::to_output(Response::Integer(1)) {
        Err(CommandError::Output(msg, _)) => assert_eq!(msg, "Unexpected Value"),
        other => panic!("expected a decode error, got {:?}", other),
    }
}

#[test]
fn xinfo_empty_reply_fails() {
    match XInfoCommand::to_output(Response::Array(vec![])) {
        Err(CommandError::Output(msg, _)) => assert_eq!(msg, "Unknown Stream Info Key"),
        other => panic!("expected a decode error, got {:?}", other),
    }
}

#[test]
fn xinfo_integer_sniff_fails() {
    match XInfoCommand::to_output(Response::Array(vec![Response::Integer(1)])) {
        Err(CommandError::Output(msg, Response::Integer(1))) => {
            assert_eq!(msg, "Unknown Stream Info Key")
        },
        other => panic!("expected a decode error, got {:?}", other),
    }
}

#[test]
fn xinfo_missing_required_key_fails() {
    let reply = Response::Array(vec![bytes("last-generated-id"), bytes("5-1")]);
    match XInfoCommand::to_output(reply) {
        Err(CommandError::MissingField(k)) => assert_eq!(k, "length"),
        other => panic!("expected a missing-field error, got {:?}", other),
    }
}

#[test]
fn xinfo_groups_field_wrong_shape_fails() {
    let reply = Response::Array(vec![
        bytes("length"),
        Response::Integer(0),
        bytes("last-generated-id"),
        bytes("0-0"),
        bytes("entries-added"),
        Response::Integer(0),
        bytes("groups"),
        bytes("three"),
    ]);
    match XInfoCommand::to_output(reply) {
        Err(CommandError::Output(msg, _)) => {
            assert_eq!(msg, "Unexpected Value Type, Want i64 or array")
        },
        other => panic!("expected a decode error, got {:?}", other),
    }
}

#[test]
fn xinfo_missing_both_entry_forms_fails() {
    let reply = Response::Array(vec![
        bytes("length"),
        Response::Integer(0),
        bytes("last-generated-id"),
        bytes("0-0"),
        bytes("entries-added"),
        Response::Integer(0),
        bytes("groups"),
        Response::Integer(0),
    ]);
    match XInfoCommand::to_output(reply) {
        Err(CommandError::MissingField(k)) => assert_eq!(k, "first-entry"),
        other => panic!("expected a missing-field error, got {:?}", other),
    }
}

#[test]
fn xinfo_entries_read_only_counts_integers() {
    let group = Response::Array(vec![
        bytes("name"),
        bytes("g1"),
        bytes("consumers"),
        Response::Integer(0),
        bytes("pending"),
        Response::Integer(0),
        bytes("last-delivered-id"),
        bytes("0-0"),
        bytes("lag"),
        Response::Integer(0),
        bytes("entries-read"),
        bytes("seven"),
    ]);
    match XInfoCommand::to_output(Response::Array(vec![group])) {
        Ok(XInfoItem::Groups(gs)) => assert_eq!(gs[0].entries_read, None),
        other => panic!("expected a groups list, got {:?}", other),
    }
}
