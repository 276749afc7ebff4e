use mogcord::db::mongol::bucket::MongolBucket;
use mogcord::db::mongol::channel::{Channel, MongolChannel, ParentCollection, ParentType};
use mogcord::db::mongol::channel_parent::{
    cant_gain_users_error, chat_exists_filter, server_user_push, Chat, ChatExistsFilter,
    ChannelParent, Group, MongolChat, MongolGroup, Private, Server,
};
use mogcord::db::mongol::message::{
    choose_bucket, is_listed_message, message_by_id_pipeline, message_update, message_result, valid_messages_pipeline, BucketAction,
    BucketKey, MessageFlag, MongolMessage,
};
use mogcord::db::mongol::pipeline::{
    channel_parent_result, channel_parent_step, chat_result, chat_step, server_by_channel_pipeline,
    server_by_channel_result, server_by_id_pipeline, server_by_id_result, ChatKind, FetchedParent,
    PARENT_STACK,
};
use mogcord::db::mongol::stages::{FieldSetting, PipelineStage};
use mogcord::db::mongol::refresh_token::{
    is_active_token, revocation_selects_token, revoke_all_plan, revoke_token_plan,
    valid_token_pipeline, valid_token_result, MongolRefreshToken, RefreshTokenFlag,
    REFRESH_TOKEN_STACK,
};
use mogcord::error::{ClientError, Kind, OnType};
use mogcord::ids::MongolId;

const ID: MongolId = MongolId(0x550e8400e29b41d4a716446655440000);

fn s(t: &str) -> String {
    t.to_string()
}

fn channel_doc(parent_type: ParentType) -> MongolChannel {
    MongolChannel { _id: ID, parent_type, name: None, roles: vec![] }
}

fn channel() -> Channel {
    Channel { id: s("c"), name: None, roles: vec![] }
}

fn private() -> Private {
    Private { id: s("p"), owner_ids: vec![s("a"), s("b")], channel: channel() }
}

fn group() -> Group {
    Group { id: s("g"), name: s("n"), owner_id: s("a"), user_ids: vec![], channel: channel() }
}

fn server() -> Server {
    Server {
        id: s("s"),
        name: s("n"),
        owner_id: s("a"),
        user_ids: vec![],
        channels: vec![],
        roles: vec![],
        user_roles: vec![],
    }
}

#[test]
fn missing_channel_is_not_found_with_its_id() {
    let err = channel_parent_step(None, "abc").unwrap_err();
    assert_eq!(err.kind, Kind::NotFound);
    assert_eq!(err.on_type, OnType::Channel);
    assert_eq!(err.stack, PARENT_STACK);
    assert_eq!(err.debug_info, vec![(s("channel id"), s("abc"))]);
}

#[test]
fn private_channel_is_looked_up_in_chats() {
    let plan = channel_parent_step(Some(&channel_doc(ParentType::ChatPrivate)), "x").unwrap();
    assert_eq!(plan.parent_type, ParentType::ChatPrivate);
    assert_eq!(plan.lookup.collection, ParentCollection::Chats);
    assert_eq!(plan.pipeline.len(), 6);
    assert!(matches!(plan.pipeline[0], PipelineStage::MatchId { field: "Private._id", id } if id == ID));
    assert!(matches!(plan.pipeline[1], PipelineStage::Lookup { from: "users", as_field: "Private.owners", .. }));
}

#[test]
fn group_channel_pipeline_joins_owner_channel_and_users() {
    let plan = channel_parent_step(Some(&channel_doc(ParentType::ChatGroup)), "x").unwrap();
    assert_eq!(plan.lookup.collection, ParentCollection::Chats);
    assert_eq!(plan.pipeline.len(), 9);
    assert!(matches!(plan.pipeline[0], PipelineStage::MatchId { field: "Group._id", .. }));
    assert!(matches!(plan.pipeline[1], PipelineStage::Lookup { as_field: "Group.owner", .. }));
    assert!(matches!(plan.pipeline[2], PipelineStage::Unwind { path: "$Group.owner" }));
    assert!(matches!(plan.pipeline[3], PipelineStage::Lookup { as_field: "Group.channel", .. }));
    assert!(matches!(plan.pipeline[4], PipelineStage::Unwind { path: "$Group.channel" }));
    assert!(matches!(&plan.pipeline[6], PipelineStage::AddFields { fields } if fields.len() == 4));
    assert!(matches!(&plan.pipeline[7], PipelineStage::AddFields { fields }
        if fields.len() == 1 && matches!(fields[0], FieldSetting::ToMap { target: "Group.users", .. })));
    assert!(matches!(&plan.pipeline[8], PipelineStage::Unset { fields } if fields.len() == 6));
}

#[test]
fn server_channel_pipeline_wraps_the_server() {
    let plan = channel_parent_step(Some(&channel_doc(ParentType::Server)), "x").unwrap();
    assert_eq!(plan.lookup.collection, ParentCollection::Servers);
    assert_eq!(plan.pipeline.len(), 9);
    assert!(matches!(plan.pipeline[0], PipelineStage::MatchId { field: "channel_ids", .. }));
    assert!(matches!(plan.pipeline[8], PipelineStage::WrapRoot { field: "Server" }));
}

#[test]
fn parent_result_follows_the_parent_type() {
    let r = channel_parent_result(ParentType::ChatPrivate, Some(FetchedParent::Private(private())));
    assert!(matches!(r, Ok(ChannelParent::Chat(Chat::Private(p))) if p.id == "p"));
    let r = channel_parent_result(ParentType::ChatGroup, Some(FetchedParent::Group(group())));
    assert!(matches!(r, Ok(ChannelParent::Chat(Chat::Group(_)))));
    let r = channel_parent_result(ParentType::Server, Some(FetchedParent::Server(server())));
    assert!(matches!(r, Ok(ChannelParent::Server(_))));
}

#[test]
fn parent_result_errors() {
    let e = channel_parent_result(ParentType::Server, None).unwrap_err();
    assert_eq!((e.kind, e.on_type), (Kind::Unexpected, OnType::ChannelParent));
    assert!(e.debug_info.is_empty());
    let e = channel_parent_result(ParentType::Server, Some(FetchedParent::Private(private()))).unwrap_err();
    assert_eq!((e.kind, e.on_type), (Kind::Parse, OnType::ChannelParent));
}

#[test]
fn chat_step_and_result() {
    let e = chat_step(None, "q", ID).unwrap_err();
    assert_eq!((e.kind, e.on_type), (Kind::NotFound, OnType::Chat));
    assert_eq!(e.debug_info, vec![(s("chat id"), s("q"))]);
    let plan = chat_step(Some(ChatKind::Group), "q", ID).unwrap();
    assert_eq!(plan.parent_type, ParentType::ChatGroup);
    assert!(matches!(plan.pipeline[0], PipelineStage::MatchId { field: "Group._id", .. }));
    let e = chat_result(ParentType::ChatPrivate, None, "q").unwrap_err();
    assert_eq!(e.debug_info, vec![(s("chat id"), s("q"))]);
    assert!(matches!(
        chat_result(ParentType::ChatPrivate, Some(FetchedParent::Private(private())), "q"),
        Ok(Chat::Private(_))
    ));
    let e = chat_result(ParentType::ChatPrivate, Some(FetchedParent::Group(group())), "q").unwrap_err();
    assert_eq!((e.kind, e.on_type), (Kind::Parse, OnType::Chat));
}

#[test]
fn server_reads() {
    assert!(matches!(server_by_id_pipeline(ID)[0], PipelineStage::MatchId { field: "_id", .. }));
    assert!(matches!(
        server_by_channel_pipeline(ID)[0],
        PipelineStage::MatchId { field: "channel_ids._id", .. }
    ));
    assert_eq!(server_by_id_pipeline(ID).len(), 8);
    let e = server_by_id_result(None).unwrap_err();
    assert_eq!((e.kind, e.on_type, e.client), (Kind::NotFound, OnType::Server, Some(ClientError::ServerNotFound)));
    let e = server_by_channel_result(None).unwrap_err();
    assert_eq!((e.kind, e.on_type, e.client), (Kind::NotFound, OnType::Server, None));
    assert_eq!(server_by_id_result(Some(server())).unwrap().id, "s");
}

#[test]
fn valid_token_reads() {
    let p = valid_token_pipeline(ID, 42);
    assert_eq!(p.len(), 5);
    assert!(matches!(p[0], PipelineStage::MatchActiveToken { device_id, now: 42 } if device_id == ID));
    let e = valid_token_result(None, "dev").unwrap_err();
    assert_eq!((e.kind, e.on_type), (Kind::NotFound, OnType::RefreshToken));
    assert_eq!(e.stack, REFRESH_TOKEN_STACK);
    assert_eq!(e.pub_info, Some(s("dev")));
}

fn stored_message(id: u128) -> MongolMessage {
    MongolMessage {
        _id: MongolId(id),
        value: s("hi"),
        timestamp: 5,
        owner_id: MongolId(9),
        channel_id: MongolId(7),
        bucket_id: None,
        flag: MessageFlag::NoFlag,
    }
}

#[test]
fn two_messages_of_one_channel_and_day_share_one_bucket() {
    let key = BucketKey { channel_id: MongolId(7), date: 86_400_000 };
    let mut buckets: Vec<MongolBucket> = Vec::new();
    for id in [1u128, 2u128] {
        let m = stored_message(id);
        let found = buckets
            .iter()
            .find(|b| b.channel_id == key.channel_id && b.date == key.date)
            .map(|b| MongolBucket { _id: b._id, channel_id: b.channel_id, date: b.date, message_ids: b.message_ids.clone() });
        match choose_bucket(found, &m, &key) {
            BucketAction::AppendTo(b) => {
                let stored = buckets.iter_mut().find(|x| x._id == b._id).unwrap();
                stored.message_ids.push(m._id);
            },
            BucketAction::Create(b) => buckets.push(b),
        }
    }
    assert_eq!(buckets.len(), 1);
    assert_eq!(buckets[0].message_ids, vec![MongolId(1), MongolId(2)]);
}

#[test]
fn message_reads() {
    let p = message_by_id_pipeline(ID);
    assert_eq!(p.len(), 9);
    assert!(matches!(p[0], PipelineStage::MatchId { field: "_id", .. }));
    let p = valid_messages_pipeline(ID, 20, u64::MAX);
    assert!(matches!(p[0], PipelineStage::MatchValidMessages { channel_id } if channel_id == ID));
    assert!(matches!(p[1], PipelineStage::SortDescending { field: "timestamp" }));
    assert!(matches!(p[2], PipelineStage::Skip { count: 20 }));
    assert!(matches!(p[3], PipelineStage::Limit { count: 0 }));
    assert_eq!(p.len(), 12);
    let e = message_result(None, "m").unwrap_err();
    assert_eq!((e.kind, e.on_type), (Kind::NotFound, OnType::Message));
    assert_eq!(e.debug_info, vec![(s("message id"), s("m"))]);
}

#[test]
fn users_page_reads() {
    let p = mogcord::db::mongol::user::users_page_pipeline(40, 20);
    assert_eq!(p.len(), 4);
    assert!(matches!(&p[0], PipelineStage::AddFields { fields }
        if fields[..] == [FieldSetting::KeyToString { target: "id", source: "$_id" }]));
    assert!(matches!(p[2], PipelineStage::Skip { count: 40 }));
    assert!(matches!(p[3], PipelineStage::Limit { count: 20 }));
    let p = mogcord::db::mongol::user::users_page_pipeline(1 << 40, 5);
    assert!(matches!(p[2], PipelineStage::Skip { count: 0 }));
}

#[test]
fn active_token_and_listed_message_selection() {
    use_selection(is_listed_message);
}

fn use_selection(listed: fn(&MongolMessage, MongolId) -> bool) {
    let m = stored_message(1);
    assert!(listed(&m, MongolId(7)));
    assert!(!listed(&m, MongolId(8)));
    let mut edited = stored_message(2);
    edited.flag = MessageFlag::Edited { date: 3 };
    assert!(listed(&edited, MongolId(7)));
    let t = MongolRefreshToken {
        value: s("v"),
        device_id: ID,
        expiration_date: 100,
        flag: RefreshTokenFlag::NoFlag,
        owner_id: MongolId(2),
    };
    assert!(is_active_token(&t, ID, 100));
    assert!(!is_active_token(&t, ID, 101));
    assert!(!is_active_token(&t, MongolId(3), 50));
    let revoked = MongolRefreshToken { flag: RefreshTokenFlag::Revoked, ..t };
    assert!(!is_active_token(&revoked, ID, 50));
}

const TEXT: &str = "550e8400-e29b-41d4-a716-446655440000";

#[test]
fn token_revocations_select_the_right_tokens() {
    let one = revoke_token_plan(TEXT, TEXT).unwrap();
    assert_eq!((one.owner_id, one.device_id, one.active_at), (ID, Some(ID), None));
    let e = revoke_token_plan("bad-user", "bad-device").unwrap_err();
    assert_eq!(e.debug_info[0].1, "bad-user");
    let all = revoke_all_plan(TEXT, 50).unwrap();
    assert_eq!((all.device_id, all.active_at), (None, Some(50)));
    let t = MongolRefreshToken {
        value: s("v"),
        device_id: MongolId(3),
        expiration_date: 100,
        flag: RefreshTokenFlag::NoFlag,
        owner_id: ID,
    };
    assert!(revocation_selects_token(&all, &t));
    assert!(!revocation_selects_token(&one, &t));
    let expired = MongolRefreshToken { expiration_date: 10, ..t };
    assert!(!revocation_selects_token(&all, &expired));
}

#[test]
fn server_push_and_its_error() {
    assert_eq!(server_user_push(TEXT, TEXT).unwrap(), (ID, ID));
    assert_eq!(server_user_push(TEXT, "nope").unwrap_err().debug_info[0].1, "nope");
    let e = cant_gain_users_error(s("down"), "s", "u");
    assert_eq!((e.kind, e.on_type), (Kind::CantGainUsers, OnType::Server));
    assert_eq!(
        e.debug_info,
        vec![(s("error"), s("down")), (s("server id"), s("s")), (s("user to add"), s("u"))]
    );
}

#[test]
fn chat_exists_filter_and_message_update() {
    let f = chat_exists_filter(MongolChat::Group(MongolGroup {
        _id: ID,
        name: s("n"),
        owner_id: MongolId(2),
        user_ids: vec![MongolId(3)],
        channel_id: MongolId(4),
    }));
    assert!(matches!(f, ChatExistsFilter::Group { ref name, owner_id, ref user_ids }
        if name == "n" && owner_id == MongolId(2) && *user_ids == vec![MongolId(3)]));
    let u = message_update(stored_message(5));
    assert_eq!((u.id, u.value.as_str(), u.flag), (MongolId(5), "hi", MessageFlag::NoFlag));
}
