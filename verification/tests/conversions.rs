use mogcord::db::mongol::bucket::{Bucket, MongolBucket, BUCKET_STACK};
use mogcord::db::mongol::channel::{
    channel_parent_lookup, Channel, MongolChannel, ParentCollection, ParentType, Role,
};
use mogcord::db::mongol::channel_parent::{
    group_chat_update, Chat, ChannelParent, Group, MongolChannelParent, MongolChannelVecWrapper,
    MongolChat, MongolGroup, MongolPrivate, MongolServer, Private, Server, CHAT_STACK,
};
use mogcord::db::mongol::chat::{ChatParent, MongolChat as WrappedChat, MongolChatWrapper};
use mogcord::db::mongol::helper::CalendarDateTime;
use mogcord::db::mongol::message::{
    assign_bucket, choose_bucket, message_bucket_key, BucketAction, Message, MessageFlag,
    MongolMessage, MESSAGE_STACK,
};
use mogcord::db::mongol::refresh_token::{
    MongolRefreshToken, RefreshToken, RefreshTokenFlag, REFRESH_TOKEN_STACK,
};
use mogcord::db::mongol::user::{MongolUser, MongolUserVec, User, UserFlag};
use mogcord::error::{ClientError, Kind, OnType};
use mogcord::ids::MongolId;

const A: &str = "550e8400-e29b-41d4-a716-446655440000";
const B: &str = "6fa459ea-ee8a-3ca4-894e-db77e160355e";
const C: &str = "00000000-0000-0000-0000-000000000001";
const IA: MongolId = MongolId(0x550e8400e29b41d4a716446655440000);
const IB: MongolId = MongolId(0x6fa459eaee8a3ca4894edb77e160355e);
const IC: MongolId = MongolId(1);

fn s(t: &str) -> String {
    t.to_string()
}

fn channel(id: &str) -> Channel {
    Channel { id: s(id), name: Some(s("general")), roles: vec![Role { name: s("mod") }] }
}

fn user(id: &str) -> User {
    User::convert(s(id), s("ann"), s("ann@x.org"), s("hash"), UserFlag::Admin)
}

#[test]
fn user_converts_and_reads_back() {
    let m = MongolUser::try_from(&user(A)).unwrap();
    assert_eq!(m._id, IA);
    assert_eq!(m.username, "ann");
    assert_eq!(m.email, "ann@x.org");
    assert_eq!(m.hashed_password, "hash");
    assert_eq!(m.flag, UserFlag::Admin);
    let back = User::from(&m);
    assert_eq!(back.id, A);
    assert_eq!(MongolUser::try_from(&back).unwrap()._id, IA);
}

#[test]
fn user_with_bad_id_is_refused() {
    let e = MongolUser::try_from(&user("zz")).unwrap_err();
    assert_eq!(e.kind, Kind::InValid);
    assert_eq!(e.debug_info[0].1, "zz");
}

#[test]
fn user_vec_stops_at_first_bad_user() {
    let ok = MongolUserVec::try_from(&vec![user(A), user(B)]).unwrap();
    assert_eq!(ok.0.len(), 2);
    assert_eq!(ok.0[1]._id, IB);
    let e = MongolUserVec::try_from(&vec![user(A), user("first"), user("second")]).unwrap_err();
    assert_eq!(e.debug_info[0].1, "first");
}

#[test]
fn channel_converts_with_parent_type_and_back() {
    let m = MongolChannel::try_from_channel(&channel(A), ParentType::Server).unwrap();
    assert_eq!(m._id, IA);
    assert_eq!(m.parent_type, ParentType::Server);
    assert_eq!(m.name.as_deref(), Some("general"));
    assert_eq!(m.roles[0].name, "mod");
    let back = Channel::from(&m);
    assert_eq!(back.id, A);
    assert_eq!(back.roles.len(), 1);
    assert!(MongolChannel::try_from_channel(&channel("x"), ParentType::ChatGroup).is_err());
}

fn private_chat() -> Private {
    Private { id: s(A), owner_ids: vec![s(B), s(C)], channel: channel(C) }
}

fn group_chat() -> Group {
    Group { id: s(A), name: s("team"), owner_id: s(B), user_ids: vec![s(C)], channel: channel(B) }
}

#[test]
fn private_chat_converts() {
    let m = MongolPrivate::try_from(&private_chat()).unwrap();
    assert_eq!(m._id, IA);
    assert_eq!(m.owner_ids, vec![IB, IC]);
    assert_eq!(m.channel._id, IC);
    assert_eq!(m.channel.parent_type, ParentType::ChatPrivate);
}

#[test]
fn private_chat_error_follows_conversion_order() {
    let mut p = private_chat();
    p.owner_ids = vec![s(B), s("owner-bad")];
    p.channel.id = s("channel-bad");
    assert_eq!(MongolPrivate::try_from(&p).unwrap_err().debug_info[0].1, "owner-bad");
    let mut p = private_chat();
    p.channel.id = s("channel-bad");
    assert_eq!(MongolPrivate::try_from(&p).unwrap_err().debug_info[0].1, "channel-bad");
}

#[test]
fn group_chat_converts() {
    let m = MongolGroup::try_from(&group_chat()).unwrap();
    assert_eq!((m._id, m.owner_id, m.channel_id), (IA, IB, IB));
    assert_eq!(m.name, "team");
    assert_eq!(m.user_ids, vec![IC]);
    let mut g = group_chat();
    g.owner_id = s("owner-bad");
    g.channel.id = s("channel-bad");
    assert_eq!(MongolGroup::try_from(&g).unwrap_err().debug_info[0].1, "channel-bad");
}

#[test]
fn chat_and_parent_convert_by_variant() {
    match MongolChat::try_from(&Chat::Group(group_chat())).unwrap() {
        MongolChat::Group(g) => assert_eq!(g._id, IA),
        MongolChat::Private(_) => panic!("wrong variant"),
    }
    match MongolChannelParent::try_from(&ChannelParent::Chat(Chat::Private(private_chat())))
        .unwrap()
    {
        MongolChannelParent::Chat(MongolChat::Private(p)) => assert_eq!(p.owner_ids.len(), 2),
        _ => panic!("wrong variant"),
    }
    let c = MongolChannel::try_from_chat(&Chat::Group(group_chat())).unwrap();
    assert_eq!(c.parent_type, ParentType::ChatGroup);
    assert_eq!(c._id, IB);
}

fn server() -> Server {
    Server {
        id: s(A),
        name: s("guild"),
        owner_id: s(B),
        user_ids: vec![s(B), s(C)],
        channels: vec![channel(C), channel(A)],
        roles: vec![(s("mod"), Role { name: s("mod") })],
        user_roles: vec![(s(B), vec![s("mod")])],
    }
}

#[test]
fn server_converts() {
    let m = MongolServer::try_from(&server()).unwrap();
    assert_eq!((m._id, m.owner_id), (IA, IB));
    assert_eq!(m.name, "guild");
    assert_eq!(m.user_ids, vec![IB, IC]);
    assert_eq!(m.channel_ids, vec![IC, IA]);
    assert_eq!(m.roles[0].0, "mod");
    assert_eq!(m.user_roles[0].1, vec![s("mod")]);
    let w = MongolChannelVecWrapper::try_from(&server()).unwrap();
    assert_eq!(w.0.len(), 2);
    assert!(w.0.iter().all(|c| c.parent_type == ParentType::Server));
    match MongolChannelParent::try_from(&ChannelParent::Server(Box::new(server()))).unwrap() {
        MongolChannelParent::Server(ms) => assert_eq!(ms._id, IA),
        _ => panic!("wrong variant"),
    }
}

#[test]
fn server_error_follows_conversion_order() {
    let mut sv = server();
    sv.user_ids = vec![s("user-bad")];
    sv.channels = vec![channel("channel-bad")];
    assert_eq!(MongolServer::try_from(&sv).unwrap_err().debug_info[0].1, "user-bad");
    let mut sv = server();
    sv.channels = vec![channel(A), channel("channel-bad")];
    assert_eq!(MongolServer::try_from(&sv).unwrap_err().debug_info[0].1, "channel-bad");
    assert_eq!(MongolChannelVecWrapper::try_from(&sv).unwrap_err().debug_info[0].1, "channel-bad");
}

#[test]
fn wrapped_chat_converts() {
    let w = MongolChatWrapper::try_from(&ChatParent::Group(group_chat())).unwrap();
    assert_eq!(w._id, IA);
    match w.chat {
        WrappedChat::Group { owner_id, user_ids, channel, .. } => {
            assert_eq!(owner_id, IB);
            assert_eq!(user_ids, vec![IC]);
            assert_eq!(channel.parent_type, ParentType::ChatGroup);
        },
        WrappedChat::Private { .. } => panic!("wrong variant"),
    }
    let mut g = group_chat();
    g.user_ids = vec![s("user-bad")];
    g.channel.id = s("channel-bad");
    let e = MongolChatWrapper::try_from(&ChatParent::Group(g)).unwrap_err();
    assert_eq!(e.debug_info[0].1, "user-bad");
}

#[test]
fn editing_a_private_chat_is_refused() {
    let e = group_chat_update(&Chat::Private(private_chat())).unwrap_err();
    assert_eq!(e.kind, Kind::Update);
    assert_eq!(e.on_type, OnType::ChatPrivate);
    assert_eq!(e.client, Some(ClientError::PrivateChatTryEdit));
    assert_eq!(e.stack, CHAT_STACK);
    let u = group_chat_update(&Chat::Group(group_chat())).unwrap();
    assert_eq!(u.chat_id, IA);
    assert_eq!(u.name, "team");
    assert_eq!(u.user_ids, vec![IC]);
}

fn noon() -> CalendarDateTime {
    CalendarDateTime { year: 2024, month: 1, day: 2, hour: 12, minute: 0, second: 0 }
}

#[test]
fn bucket_converts_with_day_start() {
    let b = Bucket { id: s(A), channel_id: s(B), date: noon(), message_ids: vec![s(C)] };
    let m = MongolBucket::try_from(&b).unwrap();
    assert_eq!((m._id, m.channel_id), (IA, IB));
    assert_eq!(m.date, 1_704_153_600_000);
    assert_eq!(m.message_ids, vec![IC]);
}

#[test]
fn bucket_with_bad_date_gives_parse_date_error() {
    let mut date = noon();
    date.month = 0;
    let b = Bucket { id: s(A), channel_id: s(B), date, message_ids: vec![s("bad")] };
    let e = MongolBucket::try_from(&b).unwrap_err();
    assert_eq!((e.kind, e.on_type), (Kind::Parse, OnType::Date));
    assert_eq!(e.stack, BUCKET_STACK);
    assert_eq!(e.debug_info.len(), 1);
    assert_eq!(e.debug_info[0].0, "error");
    assert!(!e.debug_info[0].1.is_empty());
}

fn message() -> Message {
    Message {
        id: s(A),
        value: s("hi"),
        timestamp: noon(),
        timestamp_subsec_millis: 0,
        owner_id: s(B),
        channel_id: s(C),
        bucket_id: None,
        flag: MessageFlag::NoFlag,
    }
}

#[test]
fn message_converts() {
    let m = MongolMessage::try_from(&message()).unwrap();
    assert_eq!((m._id, m.owner_id, m.channel_id), (IA, IB, IC));
    assert_eq!(m.timestamp, 1_704_196_800_000);
    assert_eq!(m.bucket_id, None);
    assert_eq!(m.value, "hi");
    let mut msg = message();
    msg.bucket_id = Some(s("bucket-bad"));
    assert_eq!(MongolMessage::try_from(&msg).unwrap_err().debug_info[0].1, "bucket-bad");
    msg.bucket_id = Some(s(A));
    assert_eq!(MongolMessage::try_from(&msg).unwrap().bucket_id, Some(IA));
}

#[test]
fn new_message_goes_to_a_fresh_bucket_of_its_day() {
    let (db_message, key) = message_bucket_key(&message()).unwrap();
    assert_eq!(key.channel_id, IC);
    assert_eq!(key.date, 1_704_153_600_000);
    let action = choose_bucket(None, &db_message, &key);
    let id = action.bucket_id();
    match &action {
        BucketAction::Create(b) => {
            assert_eq!(b.channel_id, IC);
            assert_eq!(b.date, key.date);
            assert_eq!(b.message_ids, vec![IA]);
        },
        BucketAction::AppendTo(_) => panic!("expected a new bucket"),
    }
    let (msg, stored) = assign_bucket(message(), db_message, id);
    assert_eq!(stored.bucket_id, Some(id));
    let text = msg.bucket_id.unwrap();
    assert_eq!(text.len(), 36);
    assert_eq!(mogcord::db::mongol::helper::convert_domain_id_to_mongol(&text).unwrap(), id);
}

#[test]
fn new_message_joins_an_existing_bucket() {
    let (db_message, key) = message_bucket_key(&message()).unwrap();
    let existing = MongolBucket { _id: IB, channel_id: IC, date: key.date, message_ids: vec![] };
    let action = choose_bucket(Some(existing), &db_message, &key);
    assert_eq!(action.bucket_id(), IB);
    assert!(matches!(action, BucketAction::AppendTo(_)));
}

#[test]
fn message_with_unrepresentable_day_is_refused() {
    let mut msg = message();
    msg.timestamp.day = 40;
    let e = message_bucket_key(&msg).unwrap_err();
    assert_eq!((e.kind, e.on_type), (Kind::Parse, OnType::Date));
    assert_eq!(e.stack, MESSAGE_STACK);
    assert_eq!(e.debug_info.len(), 1);
    assert_eq!(e.debug_info[0].0, "error");
}

#[test]
fn refresh_token_converts() {
    let t = RefreshToken {
        value: s("tok"),
        device_id: s(A),
        expiration_date: noon(),
        flag: RefreshTokenFlag::NoFlag,
        owner_id: s(B),
    };
    let m = MongolRefreshToken::try_from(&t).unwrap();
    assert_eq!((m.device_id, m.owner_id), (IA, IB));
    assert_eq!(m.expiration_date, 1_704_196_800_000);
    assert_eq!(m.flag, RefreshTokenFlag::NoFlag);
    let mut bad = t;
    bad.expiration_date.hour = 30;
    let e = MongolRefreshToken::try_from(&bad).unwrap_err();
    assert_eq!((e.kind, e.on_type), (Kind::InValid, OnType::Date));
    assert_eq!(e.stack, REFRESH_TOKEN_STACK);
    assert!(e.debug_info.is_empty());
    bad.owner_id = s("owner-bad");
    assert_eq!(MongolRefreshToken::try_from(&bad).unwrap_err().debug_info[0].1, "owner-bad");
}

#[test]
fn channel_parent_is_looked_up_by_parent_type() {
    let p = channel_parent_lookup(ParentType::ChatPrivate);
    assert_eq!((p.collection, p.match_field, p.on_type, p.wrap_as_server), (ParentCollection::Chats, "Private._id", OnType::ChatPrivate, false));
    let g = channel_parent_lookup(ParentType::ChatGroup);
    assert_eq!((g.collection, g.match_field, g.on_type, g.wrap_as_server), (ParentCollection::Chats, "Group._id", OnType::ChatGroup, false));
    let s = channel_parent_lookup(ParentType::Server);
    assert_eq!((s.collection, s.match_field, s.on_type, s.wrap_as_server), (ParentCollection::Servers, "channel_ids", OnType::Server, true));
}

#[test]
fn message_bucket_is_the_start_of_its_utc_day() {
    let (db_message, key) = message_bucket_key(&message()).unwrap();
    assert_eq!(key.date, 1_704_153_600_000);
    assert!(key.date <= db_message.timestamp && db_message.timestamp < key.date + 86_400_000);
    let mut late = message();
    late.timestamp.hour = 23;
    late.timestamp.minute = 59;
    late.timestamp.second = 59;
    late.timestamp_subsec_millis = 500;
    let (late_stored, late_key) = message_bucket_key(&late).unwrap();
    assert_eq!(late_key.date, key.date);
    assert!(late_stored.timestamp < late_key.date + 86_400_000);
    assert_eq!(late_stored.timestamp, 1_704_239_999_500);
}

#[test]
fn message_with_impossible_time_is_refused() {
    let mut msg = message();
    msg.timestamp.minute = 75;
    let e = MongolMessage::try_from(&msg).unwrap_err();
    assert_eq!((e.kind, e.on_type), (Kind::Parse, OnType::Date));
    assert_eq!(e.stack, MESSAGE_STACK);
    assert_eq!(e.debug_info[0].0, "error");
}

#[test]
fn stored_server_keeps_role_keys_distinct() {
    let mut sv = server();
    sv.roles = vec![(s("admin"), Role { name: s("admin") }), (s("mod"), Role { name: s("mod") })];
    sv.user_roles = vec![(s(A), vec![s("admin")]), (s(B), vec![s("mod")])];
    let m = MongolServer::try_from(&sv).unwrap();
    let names: Vec<&str> = m.roles.iter().map(|(k, _)| k.as_str()).collect();
    assert_eq!(names, vec!["admin", "mod"]);
    let users: Vec<&str> = m.user_roles.iter().map(|(k, _)| k.as_str()).collect();
    assert_eq!(users, vec![A, B]);
}
