use xstream::XGroup;
use xstream::codec::{CommandError, Request, Response};

fn tokens(req: Request) -> Vec<String> {
    match req {
        Request::Array(items) => items
            .into_iter()
            .map(|part| match part {
                Request::Text(s) => s,
                Request::Number(n) => n.to_string(),
                Request::Array(_) => panic!("nested array in a flat frame"),
            })
            .collect(),
        _ => panic!("expected an array frame"),
    }
}

#[test]
fn xgroup_create_mkstream_frame() {
    let cmd = XGroup("orders", "g1").create().make_stream().build().unwrap();
    let toks = tokens(cmd.to_request());
    assert_eq!(toks, vec!["XGROUP", "CREATE", "orders", "g1", "$", "MKSTREAM"]);
}

#[test]
fn xgroup_ok_status_decodes_to_success() {
    let r = xstream::xgroup::XGroupCommand::to_output(Response::String("OK".to_string()));
    assert!(r.is_ok());
}

#[test]
fn xgroup_integer_decodes_to_success() {
    let r = xstream::xgroup::XGroupCommand::to_output(Response::Integer(0));
    assert!(r.is_ok());
}

#[test]
fn xgroup_busygroup_is_application_error() {
    let msg = "BUSYGROUP Consumer Group name already exists";
    let r = xstream::xgroup::XGroupCommand::to_output(Response::String(msg.to_string()));
    match r {
        Err(CommandError::Error(s)) => assert_eq!(s, msg),
        other => panic!("expected an application error, got {:?}", other),
    }
}

#[test]
fn xgroup_unexpected_reply_shape_is_decode_error() {
    let r = xstream::xgroup::XGroupCommand::to_output(Response::Array(vec![]));
    match r {
        Err(CommandError::Output(msg, _)) => {
            assert_eq!(msg, "Unexpected value type, Want string or integer")
        },
        other => panic!("expected a decode error, got {:?}", other),
    }
}

#[test]
fn xgroup_build_without_subcommand_fails() {
    match XGroup("orders", "g1").build() {
        Err(CommandError::Error(s)) => assert_eq!(s, "XGroup Sub Command not set"),
        other => panic!("expected a validation error, got {:?}", other),
    }
}

#[test]
fn xgroup_default_id_token() {
    let cmd = XGroup("orders", "g1").create().build().unwrap();
    assert_eq!(tokens(cmd.to_request())[4], "$");
    let cmd = XGroup("orders", "g1").set_id().id("5-0".to_string()).build().unwrap();
    assert_eq!(tokens(cmd.to_request())[4], "5-0");
}

#[test]
fn xgroup_create_with_id_and_entries_read_frame() {
    let cmd = XGroup("orders", "g1")
        .create()
        .id("5-0".to_string())
        .entries_read()
        .build()
        .unwrap();
    let toks = tokens(cmd.to_request());
    assert_eq!(toks, vec!["XGROUP", "CREATE", "orders", "g1", "5-0", "ENTRIESREAD"]);
}

#[test]
fn xgroup_setid_frame() {
    let cmd = XGroup("orders", "g1").set_id().entries_read().build().unwrap();
    let toks = tokens(cmd.to_request());
    assert_eq!(toks, vec!["XGROUP", "SETID", "orders", "g1", "$", "ENTRIESREAD"]);
}

#[test]
fn xgroup_destroy_frame() {
    let cmd = XGroup("orders", "g1").destroy().build().unwrap();
    let toks = tokens(cmd.to_request());
    assert_eq!(toks, vec!["XGROUP", "DESTROY", "orders", "g1"]);
}

#[test]
fn xgroup_consumer_frames() {
    let cmd = XGroup("orders", "g1").create_consumer("c1").build().unwrap();
    assert_eq!(tokens(cmd.to_request()), vec!["XGROUP", "CREATECONSUMER", "orders", "g1", "c1"]);
    let cmd = XGroup("orders", "g1").delete_consumer("c1").build().unwrap();
    assert_eq!(tokens(cmd.to_request()), vec!["XGROUP", "DELCONSUMER", "orders", "g1", "c1"]);
}

#[test]
fn xgroup_mkstream_after_destroy_fails() {
    match XGroup("orders", "g1").destroy().make_stream().build() {
        Err(CommandError::Error(s)) => assert_eq!(s, "mkstream only used in create sub command"),
        other => panic!("expected a validation error, got {:?}", other),
    }
}

#[test]
fn xgroup_id_without_subcommand_fails() {
    match XGroup("orders", "g1").id("5-0".to_string()).build() {
        Err(CommandError::Error(s)) => {
            assert_eq!(s, "id only used in create or setid sub command")
        },
        other => panic!("expected a validation error, got {:?}", other),
    }
}

#[test]
fn xgroup_entries_read_after_destroy_fails() {
    match XGroup("orders", "g1").destroy().entries_read().build() {
        Err(CommandError::Error(s)) => {
            assert_eq!(s, "entriesread only used in create or setid sub command")
        },
        other => panic!("expected a validation error, got {:?}", other),
    }
}

#[test]
fn xgroup_selecting_subcommand_resets_state() {
    match XGroup("orders", "g1").destroy().make_stream().set_id().build() {
        Ok(cmd) => {
            assert_eq!(tokens(cmd.to_request())[1], "SETID");
        },
        Err(e) => panic!("selecting a sub-command resets the state, got {:?}", e),
    }
}

#[test]
fn xgroup_invalid_state_stays_invalid_under_options() {
    match XGroup("orders", "g1").destroy().make_stream().entries_read().build() {
        Err(CommandError::Error(s)) => {
            assert_eq!(s, "entriesread only used in create or setid sub command")
        },
        other => panic!("expected a validation error, got {:?}", other),
    }
}

#[test]
fn xgroup_build_is_idempotent() {
    let a = XGroup("orders", "g1").create().make_stream().build().unwrap();
    let b = XGroup("orders", "g1").create().make_stream().build().unwrap();
    assert_eq!(tokens(a.to_request()), tokens(b.to_request()));
}

#[test]
fn xgroup_subcommand_token_is_second() {
    let cmd = XGroup("k", "g").create_consumer("c").build().unwrap();
    assert_eq!(tokens(cmd.to_request())[1], "CREATECONSUMER");
    let cmd = XGroup("k", "g").set_id().build().unwrap();
    assert_eq!(tokens(cmd.to_request())[1], "SETID");
}
