use mogcord::db::mongoldb::mongol_message::chat_messages_page_pipeline;
use mogcord::db::mongol::stages::PipelineStage;
use mogcord::db::mongoldb::mongol_chat::{
    chat_by_chat_info_step, chat_by_id_step, first_chat_result, ChatReadError, FirstChatKind,
};
use mogcord::db::mongoldb::mongol_chat::{Chat as FirstChat, MongolChat as FirstMongolChat, MongolChatWrapper as FirstWrapper};
use mogcord::db::mongoldb::mongol_chat_info::{ChatInfo, MongolChatInfo, MongolChatInfoWrapper};
use mogcord::db::mongoldb::mongol_chat_type::{ChatType, MongolChatType};
use mogcord::db::mongoldb::mongol_helper::{convert_domain_id_to_mongol, MongolError};
use mogcord::ids::MongolId;

const A: &str = "550e8400-e29b-41d4-a716-446655440000";
const IA: MongolId = MongolId(0x550e8400e29b41d4a716446655440000);

#[test]
fn invalid_id_names_the_id() {
    match convert_domain_id_to_mongol("nope") {
        Err(MongolError::InvalidID { id }) => assert_eq!(id, "nope"),
        _ => panic!("expected InvalidID"),
    }
    assert_eq!(convert_domain_id_to_mongol(A).unwrap(), IA);
}

#[test]
fn chat_types_convert() {
    let g = ChatType::Group { name: "g".to_string(), owner_id: A.to_string(), user_ids: vec![A.to_string()] };
    match MongolChatType::try_from(&g).unwrap() {
        MongolChatType::Group { name, owner_id, user_ids } => {
            assert_eq!(name, "g");
            assert_eq!(owner_id, IA);
            assert_eq!(user_ids, vec![IA]);
        },
        _ => panic!("wrong variant"),
    }
    let p = ChatType::Private { owner_ids: vec![A.to_string(), "bad".to_string()] };
    assert!(matches!(MongolChatType::try_from(&p), Err(MongolError::InvalidID { .. })));
    let sv = ChatType::Server { name: "s".to_string(), owner_id: "x".to_string(), user_ids: vec![] };
    match MongolChatType::try_from(&sv) {
        Err(MongolError::InvalidID { id }) => assert_eq!(id, "x"),
        _ => panic!("expected InvalidID"),
    }
}

#[test]
fn chat_infos_convert() {
    let info = ChatInfo { id: A.to_string(), name: Some("n".to_string()) };
    let m = MongolChatInfo::try_from(&info).unwrap();
    assert_eq!(m._id, IA);
    assert_eq!(m.name.as_deref(), Some("n"));
    let bad = ChatInfo { id: "b".to_string(), name: None };
    let w = MongolChatInfoWrapper::try_from(&vec![info, bad]);
    assert!(matches!(w, Err(MongolError::InvalidID { .. })));
}

fn info(id: &str) -> ChatInfo {
    ChatInfo { id: id.to_string(), name: None }
}

#[test]
fn first_layout_chats_convert() {
    let p = FirstChat::Private { id: A.to_string(), owner_ids: vec![A.to_string()], chat_info: info(A) };
    let w = FirstWrapper::try_from(&p).unwrap();
    assert_eq!(w._id, IA);
    assert!(matches!(w.chat, FirstMongolChat::Private { ref owner_ids, ref chat_info } if *owner_ids == vec![IA] && chat_info._id == IA));
    let s = FirstChat::Server {
        id: A.to_string(),
        name: "s".to_string(),
        owner_id: A.to_string(),
        user_ids: vec![],
        chat_infos: vec![info(A), info(A)],
    };
    let w = FirstWrapper::try_from(&s).unwrap();
    assert!(matches!(w.chat, FirstMongolChat::Server { ref chat_infos, .. } if chat_infos.len() == 2));
}

#[test]
fn first_layout_chat_fails_on_first_invalid_id() {
    let g = FirstChat::Group {
        id: A.to_string(),
        name: "g".to_string(),
        owner_id: A.to_string(),
        user_ids: vec!["u1".to_string()],
        chat_info: info("i1"),
    };
    match FirstWrapper::try_from(&g) {
        Err(MongolError::InvalidID { id }) => assert_eq!(id, "u1"),
        _ => panic!("expected the user id to be refused"),
    }
    let s = FirstChat::Server {
        id: A.to_string(),
        name: "s".to_string(),
        owner_id: A.to_string(),
        user_ids: vec![],
        chat_infos: vec![info(A), info("i2")],
    };
    match FirstWrapper::try_from(&s) {
        Err(MongolError::InvalidID { id }) => assert_eq!(id, "i2"),
        _ => panic!("expected the chat info id to be refused"),
    }
}

#[test]
fn first_layout_chat_reads() {
    assert!(matches!(chat_by_id_step(None, IA), Err(ChatReadError::ChatNotFound)));
    let p = chat_by_id_step(Some(FirstChatKind::Private), IA).unwrap();
    assert_eq!(p.len(), 5);
    assert!(matches!(p[0], PipelineStage::MatchId { field: "_id", .. }));
    assert!(matches!(p[1], PipelineStage::Project { target: "Private", source: "$chat.Private" }));
    let p = chat_by_id_step(Some(FirstChatKind::Server), IA).unwrap();
    assert_eq!(p.len(), 6);
    assert!(matches!(p[0], PipelineStage::Project { target: "Server", .. }));
    let p = chat_by_chat_info_step(Some(FirstChatKind::Group), IA).unwrap();
    assert_eq!(p.len(), 7);
    assert!(matches!(chat_by_chat_info_step(None, IA), Err(ChatReadError::ChatNotFound)));
    assert!(matches!(first_chat_result(None), Err(ChatReadError::ChatNotFound)));
}

#[test]
fn chat_messages_page() {
    let p = chat_messages_page_pipeline(A, 20, 10).unwrap();
    assert_eq!(p.len(), 6);
    assert!(matches!(p[0], PipelineStage::MatchId { field: "chat_id", id } if id == IA));
    assert!(matches!(p[1], PipelineStage::SortDescending { field: "date" }));
    assert!(matches!(p[2], PipelineStage::Skip { count: 20 }));
    assert!(matches!(p[3], PipelineStage::Limit { count: 10 }));
    assert!(matches!(p[4], PipelineStage::Lookup { from: "messages", as_field: "messages", .. }));
    let big = chat_messages_page_pipeline(A, (1u64 << 32) + 5, 0).unwrap();
    assert!(matches!(big[2], PipelineStage::Skip { count: 5 }));
    assert!(matches!(chat_messages_page_pipeline("nope", 0, 10), Err(ChatReadError::ChatNotFound)));
}

#[test]
fn error_text_is_the_debug_form() {
    let e = MongolError::InvalidID { id: "ab\"c".to_string() };
    assert_eq!(e.text(), "InvalidID { id: \"ab\\\"c\" }");
    assert_eq!(e.text(), format!("{e:?}"));
    assert_eq!(MongolError::FailedDateParsing.text(), "FailedDateParsing");
}
