use mogcord::db::mongol::log::{
    create_server_error, MongolLog, RequestLogLine, RequestLogLinePersonal,
};
use mogcord::error::{ClientError, Kind, OnType, ServerError};

fn chain() -> ServerError {
    let inner = ServerError::new(Kind::InValid, OnType::Mongo, "inner.rs")
        .add_debug_info("incoming id", "abc".to_string());
    let mut outer = ServerError::new(Kind::Insert, OnType::Message, "outer.rs")
        .add_client(ClientError::ServerNotFound);
    outer.pub_info = Some("shown".to_string());
    outer.child = Some(Box::new(inner));
    outer
}

#[test]
fn no_error_gives_no_entries() {
    assert!(create_server_error(None).is_none());
}

#[test]
fn error_chain_is_flattened_outermost_first() {
    let e = chain();
    let entries = create_server_error(Some(&e)).unwrap();
    assert_eq!(entries.len(), 2);
    assert_eq!(entries[0].kind, "Insert");
    assert_eq!(entries[0].on_type, "Message");
    assert_eq!(entries[0].stack, "outer.rs");
    assert!(entries[0].debug_info.is_empty());
    assert_eq!(entries[0].pub_info.as_deref(), Some("shown"));
    assert_eq!(entries[1].kind, "InValid");
    assert_eq!(entries[1].on_type, "Mongo");
    assert_eq!(entries[1].debug_info, vec![("incoming id".to_string(), "abc".to_string())]);
    assert!(entries[1].pub_info.is_none());
}

#[test]
fn debug_info_keeps_insertion_order() {
    let e = ServerError::new(Kind::Fetch, OnType::User, "s")
        .add_debug_info("a", "1".to_string())
        .add_debug_info("b", "2".to_string());
    let entries = create_server_error(Some(&e)).unwrap();
    assert_eq!(
        entries[0].debug_info,
        vec![("a".to_string(), "1".to_string()), ("b".to_string(), "2".to_string())]
    );
}

#[test]
fn debug_info_keeps_the_last_value_of_a_key() {
    let e = ServerError::new(Kind::Fetch, OnType::User, "s")
        .add_debug_info("a", "1".to_string())
        .add_debug_info("b", "2".to_string())
        .add_debug_info("a", "3".to_string());
    let entries = create_server_error(Some(&e)).unwrap();
    let mut info = entries[0].debug_info.clone();
    info.sort();
    assert_eq!(info, vec![("a".to_string(), "3".to_string()), ("b".to_string(), "2".to_string())]);
}

#[test]
fn log_keeps_request_fields() {
    let line = RequestLogLine {
        req_id: "r1".to_string(),
        timestamp: "2024-01-01".to_string(),
        user_info: RequestLogLinePersonal { user_id: Some("u".to_string()) },
        req_path: "/chat".to_string(),
        req_method: "POST".to_string(),
        client_error_type: None,
        server_error: Some(chain()),
    };
    let log = MongolLog::try_from(line).unwrap();
    assert_eq!(log.req_id, "r1");
    assert_eq!(log.req_path, "/chat");
    assert_eq!(log.req_method, "POST");
    assert_eq!(log.user_info.user_id.as_deref(), Some("u"));
    assert_eq!(log.server_error.unwrap().len(), 2);
}

#[test]
fn all_kind_and_location_names() {
    let kinds = [
        (Kind::InValid, "InValid"), (Kind::Parse, "Parse"), (Kind::Fetch, "Fetch"),
        (Kind::NotFound, "NotFound"), (Kind::Insert, "Insert"), (Kind::Update, "Update"),
        (Kind::Delete, "Delete"), (Kind::Unexpected, "Unexpected"),
        (Kind::CantGainUsers, "CantGainUsers"),
    ];
    for (k, n) in kinds {
        assert_eq!(k.name(), n);
    }
    assert_eq!(OnType::RelationBlocked.name(), "RelationBlocked");
    assert_eq!(OnType::Transaction.name(), "Transaction");
}
