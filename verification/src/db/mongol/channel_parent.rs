use vstd::prelude::*;

use crate::db::mongol::channel::{channel_conversion, Channel, MongolChannel, ParentType, Role};
use crate::db::mongol::helper::{
    all_parse, convert_domain_id_to_mongol, convert_domain_ids_to_mongol, convert_id_list,
    first_invalid_id_error, ids_of, texts,
    lemma_all_parse_concat, lemma_invalid_after_valid, lemma_invalid_before_rest,
    lemma_single_invalid, string_texts,
};
use crate::db::mongol::relation::{convert_user_pair, pair_error, pair_parses, parsed_id};
use crate::error::{ClientError, Kind, OnType, ServerError};
use crate::ids::{parsed_uuid, MongolId};

verus! {

/// The id that a domain id text converts to (meaningful where it parses).
pub open spec fn id_of(text: Seq<char>) -> MongolId {
    MongolId(parsed_uuid(text)->0)
}

/// A chat between exactly its owners.
#[derive(Debug)]
pub struct Private {
    pub id: String,
    pub owner_ids: Vec<String>,
    pub channel: Channel,
}

/// A named chat with one owner and any number of users.
#[derive(Debug)]
pub struct Group {
    pub id: String,
    pub name: String,
    pub owner_id: String,
    pub user_ids: Vec<String>,
    pub channel: Channel,
}

/// A chat, private or group.
#[derive(Debug)]
pub enum Chat {
    Private(Private),
    Group(Group),
}

/// A server with its users, channels and roles. `user_ids` and `channels`
/// hold the keys and values of the server's maps, `roles` is keyed by role
/// name and `user_roles` maps a user id to the names of the user's roles;
/// as map keys, each of these keys occurs once (`server_keys_distinct`).
#[derive(Debug)]
pub struct Server {
    pub id: String,
    pub name: String,
    pub owner_id: String,
    pub user_ids: Vec<String>,
    pub channels: Vec<Channel>,
    pub roles: Vec<(String, Role)>,
    pub user_roles: Vec<(String, Vec<String>)>,
}

/// What holds channels: a chat or a server.
#[derive(Debug)]
pub enum ChannelParent {
    Chat(Chat),
    Server(Box<Server>),
}

/// The stored private chat.
#[derive(Debug)]
pub struct MongolPrivate {
    pub _id: MongolId,
    pub owner_ids: Vec<MongolId>,
    pub channel: MongolChannel,
}

/// The stored group chat; its channel is stored apart and referenced.
#[derive(Debug)]
pub struct MongolGroup {
    pub _id: MongolId,
    pub name: String,
    pub owner_id: MongolId,
    pub user_ids: Vec<MongolId>,
    pub channel_id: MongolId,
}

/// The stored chat.
#[derive(Debug)]
pub enum MongolChat {
    Private(MongolPrivate),
    Group(MongolGroup),
}

/// The stored server; its channels are stored apart and referenced.
#[derive(Debug)]
pub struct MongolServer {
    pub _id: MongolId,
    pub name: String,
    pub owner_id: MongolId,
    pub user_ids: Vec<MongolId>,
    pub channel_ids: Vec<MongolId>,
    pub roles: Vec<(String, Role)>,
    pub user_roles: Vec<(String, Vec<String>)>,
}

/// The stored channel parent.
#[derive(Debug)]
pub enum MongolChannelParent {
    Chat(MongolChat),
    Server(MongolServer),
}

/// The channels of a server, stored one document each.
#[derive(Debug)]
pub struct MongolChannelVecWrapper(pub Vec<MongolChannel>);

/// The ids of a private chat in the order they are converted.
pub open spec fn private_ids(value: Private) -> Seq<Seq<char>> {
    seq![value.id@] + string_texts(value.owner_ids@) + seq![value.channel.id@]
}

/// The ids of a group chat in the order they are converted.
pub open spec fn group_ids(value: Group) -> Seq<Seq<char>> {
    seq![value.id@, value.channel.id@, value.owner_id@] + string_texts(value.user_ids@)
}

/// The ids of the channels of a server.
pub open spec fn channel_ids(channels: Seq<Channel>) -> Seq<Seq<char>> {
    channels.map_values(|c: Channel| c.id@)
}

/// The ids of a server in the order they are converted.
pub open spec fn server_ids(value: Server) -> Seq<Seq<char>> {
    seq![value.id@, value.owner_id@] + string_texts(value.user_ids@) + channel_ids(
        value.channels@,
    )
}

/// The ids of a chat in the order they are converted.
pub open spec fn chat_ids(value: Chat) -> Seq<Seq<char>> {
    match value {
        Chat::Private(p) => private_ids(p),
        Chat::Group(g) => group_ids(g),
    }
}

/// Role entries with role names as text.
pub open spec fn role_entries(roles: Seq<(String, Role)>) -> Seq<(Seq<char>, Seq<char>)> {
    roles.map_values(|e: (String, Role)| (e.0@, e.1.name@))
}

/// User role entries as text.
pub open spec fn user_role_entries(entries: Seq<(String, Vec<String>)>) -> Seq<
    (Seq<char>, Seq<Seq<char>>),
> {
    entries.map_values(|e: (String, Vec<String>)| (e.0@, string_texts(e.1@)))
}

/// The stored private chat of a domain private chat.
pub open spec fn private_stored(m: MongolPrivate, value: Private) -> bool {
    &&& m._id == id_of(value.id@)
    &&& m.owner_ids@ == ids_of(string_texts(value.owner_ids@))
    &&& channel_conversion(Ok(m.channel), value.channel, ParentType::ChatPrivate)
}

/// The stored group chat of a domain group chat.
pub open spec fn group_stored(m: MongolGroup, value: Group) -> bool {
    &&& m._id == id_of(value.id@)
    &&& m.name@ == value.name@
    &&& m.owner_id == id_of(value.owner_id@)
    &&& m.user_ids@ == ids_of(string_texts(value.user_ids@))
    &&& m.channel_id == id_of(value.channel.id@)
}

/// The stored chat of a domain chat.
pub open spec fn chat_stored(m: MongolChat, value: Chat) -> bool {
    match (m, value) {
        (MongolChat::Private(mp), Chat::Private(p)) => private_stored(mp, p),
        (MongolChat::Group(mg), Chat::Group(g)) => group_stored(mg, g),
        _ => false,
    }
}

/// The stored server of a domain server.
pub open spec fn server_stored(m: MongolServer, value: Server) -> bool {
    &&& m._id == id_of(value.id@)
    &&& m.name@ == value.name@
    &&& m.owner_id == id_of(value.owner_id@)
    &&& m.user_ids@ == ids_of(string_texts(value.user_ids@))
    &&& m.channel_ids@ == ids_of(channel_ids(value.channels@))
    &&& role_entries(m.roles@) == role_entries(value.roles@)
    &&& user_role_entries(m.user_roles@) == user_role_entries(value.user_roles@)
}

/// A conversion that succeeds exactly when all ids are UUIDs, with a stored
/// value that `stored` accepts, and otherwise fails on the first id that is not.
pub open spec fn converted<T>(
    r: Result<T, ServerError>,
    ids: Seq<Seq<char>>,
    stored: spec_fn(T) -> bool,
) -> bool {
    match r {
        Ok(m) => all_parse(ids) && stored(m),
        Err(e) => first_invalid_id_error(e, ids),
    }
}

/// A copy of role entries.
fn copy_role_entries(roles: &Vec<(String, Role)>) -> (r: Vec<(String, Role)>)
    ensures
        role_entries(r@) == role_entries(roles@),
{
    let mut out: Vec<(String, Role)> = Vec::new();
    let mut i: usize = 0;
    while i < roles.len()
        invariant
            i <= roles@.len(),
            role_entries(out@) =~= role_entries(roles@).take(i as int),
        decreases roles@.len() - i,
    {
        let (k, role) = &roles[i];
        out.push((k.clone(), Role { name: role.name.clone() }));
        assert(role_entries(roles@).take(i + 1) =~= role_entries(roles@).take(i as int).push(
            (k@, role.name@),
        ));
        i += 1;
    }
    assert(role_entries(roles@).take(roles@.len() as int) =~= role_entries(roles@));
    out
}

/// A copy of texts.
fn copy_texts(texts: &Vec<String>) -> (r: Vec<String>)
    ensures
        string_texts(r@) == string_texts(texts@),
{
    let mut out: Vec<String> = Vec::new();
    let mut i: usize = 0;
    while i < texts.len()
        invariant
            i <= texts@.len(),
            string_texts(out@) =~= string_texts(texts@).take(i as int),
        decreases texts@.len() - i,
    {
        out.push(texts[i].clone());
        assert(string_texts(texts@).take(i + 1) =~= string_texts(texts@).take(i as int).push(
            texts@[i as int]@,
        ));
        i += 1;
    }
    assert(string_texts(texts@).take(texts@.len() as int) =~= string_texts(texts@));
    out
}

/// A copy of user role entries.
fn copy_user_roles(entries: &Vec<(String, Vec<String>)>) -> (r: Vec<(String, Vec<String>)>)
    ensures
        user_role_entries(r@) == user_role_entries(entries@),
{
    let mut out: Vec<(String, Vec<String>)> = Vec::new();
    let mut i: usize = 0;
    while i < entries.len()
        invariant
            i <= entries@.len(),
            user_role_entries(out@) =~= user_role_entries(entries@).take(i as int),
        decreases entries@.len() - i,
    {
        let (k, names) = &entries[i];
        out.push((k.clone(), copy_texts(names)));
        assert(user_role_entries(entries@).take(i + 1) =~= user_role_entries(entries@).take(
            i as int,
        ).push((k@, string_texts(names@))));
        i += 1;
    }
    assert(user_role_entries(entries@).take(entries@.len() as int) =~= user_role_entries(
        entries@,
    ));
    out
}

impl MongolPrivate {
    /// The stored form of a private chat; fails on its first id that is not
    /// a UUID, in the order: chat id, owner ids, channel id.
    pub fn try_from(value: &Private) -> (r: Result<MongolPrivate, ServerError>)
        ensures
            converted(r, private_ids(*value), |m: MongolPrivate| private_stored(m, *value)),
    {
        let ghost a = seq![value.id@];
        let ghost b = string_texts(value.owner_ids@);
        let ghost c = seq![value.channel.id@];
        assert(private_ids(*value) == a + b + c);
        let db_id = match convert_domain_id_to_mongol(value.id.as_str()) {
            Ok(v) => v,
            Err(e) => {
                proof {
                    lemma_single_invalid(e, value.id@);
                    lemma_invalid_before_rest(e, a, b);
                    lemma_invalid_before_rest(e, a + b, c);
                }
                return Err(e);
            },
        };
        assert(all_parse(a)) by {
            assert(a[0] == value.id@);
        }
        let owner_ids = match convert_id_list(&value.owner_ids) {
            Ok(v) => v,
            Err(e) => {
                proof {
                    lemma_invalid_after_valid(e, a, b);
                    lemma_invalid_before_rest(e, a + b, c);
                }
                return Err(e);
            },
        };
        proof {
            lemma_all_parse_concat(a, b);
        }
        let channel = match MongolChannel::try_from_channel(&value.channel, ParentType::ChatPrivate) {
            Ok(v) => v,
            Err(e) => {
                proof {
                    lemma_single_invalid(e, value.channel.id@);
                    lemma_invalid_after_valid(e, a + b, c);
                }
                return Err(e);
            },
        };
        proof {
            assert(all_parse(c)) by {
                assert(c[0] == value.channel.id@);
            }
            lemma_all_parse_concat(a + b, c);
        }
        Ok(MongolPrivate { _id: db_id, owner_ids, channel })
    }
}

impl MongolGroup {
    /// The stored form of a group chat; fails on its first id that is not a
    /// UUID, in the order: chat id, channel id, owner id, user ids.
    pub fn try_from(value: &Group) -> (r: Result<MongolGroup, ServerError>)
        ensures
            converted(r, group_ids(*value), |m: MongolGroup| group_stored(m, *value)),
    {
        let ghost a = seq![value.id@];
        let ghost b = seq![value.channel.id@];
        let ghost c = seq![value.owner_id@];
        let ghost d = string_texts(value.user_ids@);
        assert(group_ids(*value) =~= a + b + c + d);
        let db_id = match convert_domain_id_to_mongol(value.id.as_str()) {
            Ok(v) => v,
            Err(e) => {
                proof {
                    lemma_single_invalid(e, value.id@);
                    lemma_invalid_before_rest(e, a, b);
                    lemma_invalid_before_rest(e, a + b, c);
                    lemma_invalid_before_rest(e, a + b + c, d);
                }
                return Err(e);
            },
        };
        assert(all_parse(a)) by {
            assert(a[0] == value.id@);
        }
        let channel_id = match convert_domain_id_to_mongol(value.channel.id.as_str()) {
            Ok(v) => v,
            Err(e) => {
                proof {
                    lemma_single_invalid(e, value.channel.id@);
                    lemma_invalid_after_valid(e, a, b);
                    lemma_invalid_before_rest(e, a + b, c);
                    lemma_invalid_before_rest(e, a + b + c, d);
                }
                return Err(e);
            },
        };
        proof {
            assert(all_parse(b)) by {
                assert(b[0] == value.channel.id@);
            }
            lemma_all_parse_concat(a, b);
        }
        let owner_id = match convert_domain_id_to_mongol(value.owner_id.as_str()) {
            Ok(v) => v,
            Err(e) => {
                proof {
                    lemma_single_invalid(e, value.owner_id@);
                    lemma_invalid_after_valid(e, a + b, c);
                    lemma_invalid_before_rest(e, a + b + c, d);
                }
                return Err(e);
            },
        };
        proof {
            assert(all_parse(c)) by {
                assert(c[0] == value.owner_id@);
            }
            lemma_all_parse_concat(a + b, c);
        }
        let user_ids = match convert_id_list(&value.user_ids) {
            Ok(v) => v,
            Err(e) => {
                proof {
                    lemma_invalid_after_valid(e, a + b + c, d);
                }
                return Err(e);
            },
        };
        proof {
            lemma_all_parse_concat(a + b + c, d);
        }
        Ok(MongolGroup { _id: db_id, name: value.name.clone(), owner_id, user_ids, channel_id })
    }
}

impl MongolChat {
    /// The stored form of a chat.
    pub fn try_from(value: &Chat) -> (r: Result<MongolChat, ServerError>)
        ensures
            converted(r, chat_ids(*value), |m: MongolChat| chat_stored(m, *value)),
    {
        match value {
            Chat::Private(private) => {
                let p = MongolPrivate::try_from(private)?;
                Ok(MongolChat::Private(p))
            },
            Chat::Group(group) => {
                let g = MongolGroup::try_from(group)?;
                Ok(MongolChat::Group(g))
            },
        }
    }
}

impl MongolChannel {
    /// The stored channel of a chat: the chat's channel, under a private or a
    /// group parent as the chat is.
    pub fn try_from_chat(value: &Chat) -> (r: Result<MongolChannel, ServerError>)
        ensures
            match *value {
                Chat::Private(p) => channel_conversion(r, p.channel, ParentType::ChatPrivate),
                Chat::Group(g) => channel_conversion(r, g.channel, ParentType::ChatGroup),
            },
    {
        match value {
            Chat::Private(val) => MongolChannel::try_from_channel(
                &val.channel,
                ParentType::ChatPrivate,
            ),
            Chat::Group(val) => MongolChannel::try_from_channel(&val.channel, ParentType::ChatGroup),
        }
    }
}

/// Converts the ids of channels; fails on the first that is not a UUID.
fn convert_channel_ids(channels: &Vec<Channel>) -> (r: Result<Vec<MongolId>, ServerError>)
    ensures
        match r {
            Ok(v) => all_parse(channel_ids(channels@)) && v@ == ids_of(channel_ids(channels@)),
            Err(e) => first_invalid_id_error(e, channel_ids(channels@)),
        },
{
    let ghost t = channel_ids(channels@);
    let mut out: Vec<MongolId> = Vec::new();
    let mut i: usize = 0;
    while i < channels.len()
        invariant
            t == channel_ids(channels@),
            i <= channels@.len(),
            all_parse(t.take(i as int)),
            out@ =~= ids_of(t.take(i as int)),
        decreases channels@.len() - i,
    {
        match convert_domain_id_to_mongol(channels[i].id.as_str()) {
            Ok(v) => {
                assert(t.take(i + 1) =~= t.take(i as int).push(t[i as int]));
                out.push(v);
                assert forall|j: int| 0 <= j < t.take(i + 1).len() implies (#[trigger] parsed_uuid(
                    t.take(i + 1)[j],
                )) is Some by {
                    if j < i {
                        assert(t.take(i + 1)[j] == t.take(i as int)[j]);
                    }
                }
            },
            Err(e) => {
                assert(t[i as int] == channels@[i as int].id@);
                assert(parsed_uuid(t[i as int]) is None);
                return Err(e);
            },
        }
        i += 1;
    }
    assert(t.take(i as int) =~= t);
    Ok(out)
}

impl MongolServer {
    /// The stored form of a server; fails on its first id that is not a
    /// UUID, in the order: server id, owner id, user ids, channel ids.
    pub fn try_from(value: &Server) -> (r: Result<MongolServer, ServerError>)
        ensures
            converted(r, server_ids(*value), |m: MongolServer| server_stored(m, *value)),
    {
        let ghost a = seq![value.id@];
        let ghost b = seq![value.owner_id@];
        let ghost c = string_texts(value.user_ids@);
        let ghost d = channel_ids(value.channels@);
        assert(server_ids(*value) =~= a + b + c + d);
        let db_id = match convert_domain_id_to_mongol(value.id.as_str()) {
            Ok(v) => v,
            Err(e) => {
                proof {
                    lemma_single_invalid(e, value.id@);
                    lemma_invalid_before_rest(e, a, b);
                    lemma_invalid_before_rest(e, a + b, c);
                    lemma_invalid_before_rest(e, a + b + c, d);
                }
                return Err(e);
            },
        };
        assert(all_parse(a)) by {
            assert(a[0] == value.id@);
        }
        let owner_id = match convert_domain_id_to_mongol(value.owner_id.as_str()) {
            Ok(v) => v,
            Err(e) => {
                proof {
                    lemma_single_invalid(e, value.owner_id@);
                    lemma_invalid_after_valid(e, a, b);
                    lemma_invalid_before_rest(e, a + b, c);
                    lemma_invalid_before_rest(e, a + b + c, d);
                }
                return Err(e);
            },
        };
        proof {
            assert(all_parse(b)) by {
                assert(b[0] == value.owner_id@);
            }
            lemma_all_parse_concat(a, b);
        }
        let user_ids = match convert_id_list(&value.user_ids) {
            Ok(v) => v,
            Err(e) => {
                proof {
                    lemma_invalid_after_valid(e, a + b, c);
                    lemma_invalid_before_rest(e, a + b + c, d);
                }
                return Err(e);
            },
        };
        proof {
            lemma_all_parse_concat(a + b, c);
        }
        let channel_ids = match convert_channel_ids(&value.channels) {
            Ok(v) => v,
            Err(e) => {
                proof {
                    lemma_invalid_after_valid(e, a + b + c, d);
                }
                return Err(e);
            },
        };
        proof {
            lemma_all_parse_concat(a + b + c, d);
        }
        Ok(
            MongolServer {
                _id: db_id,
                name: value.name.clone(),
                owner_id,
                user_ids,
                channel_ids,
                roles: copy_role_entries(&value.roles),
                user_roles: copy_user_roles(&value.user_roles),
            },
        )
    }
}

impl MongolChannelVecWrapper {
    /// The stored channels of a server, each under a server parent; fails on
    /// the first channel whose id is not a UUID.
    pub fn try_from(value: &Server) -> (r: Result<MongolChannelVecWrapper, ServerError>)
        ensures
            match r {
                Ok(w) => {
                    &&& w.0@.len() == value.channels@.len()
                    &&& forall|i: int|
                        0 <= i < w.0@.len() ==> channel_conversion(
                            Ok(#[trigger] w.0@[i]),
                            value.channels@[i],
                            ParentType::Server,
                        )
                },
                Err(e) => first_invalid_id_error(e, channel_ids(value.channels@)),
            },
    {
        let ghost t = channel_ids(value.channels@);
        let mut out: Vec<MongolChannel> = Vec::new();
        let mut i: usize = 0;
        while i < value.channels.len()
            invariant
                t == channel_ids(value.channels@),
                i <= value.channels@.len(),
                out@.len() == i,
                forall|j: int|
                    0 <= j < i ==> channel_conversion(
                        Ok(#[trigger] out@[j]),
                        value.channels@[j],
                        ParentType::Server,
                    ),
            decreases value.channels@.len() - i,
        {
            match MongolChannel::try_from_channel(&value.channels[i], ParentType::Server) {
                Ok(c) => out.push(c),
                Err(e) => {
                    proof {
                        assert(t[i as int] == value.channels@[i as int].id@);
                        assert forall|j: int| 0 <= j < t.take(i as int).len() implies (
                        #[trigger] parsed_uuid(t.take(i as int)[j])) is Some by {
                            assert(t.take(i as int)[j] == value.channels@[j].id@);
                            assert(channel_conversion(
                                Ok(out@[j]),
                                value.channels@[j],
                                ParentType::Server,
                            ));
                        }
                        assert(parsed_uuid(t[i as int]) is None);
                    }
                    return Err(e);
                },
            }
            i += 1;
        }
        Ok(MongolChannelVecWrapper(out))
    }
}

impl MongolChannelParent {
    /// The stored form of a channel parent.
    pub fn try_from(value: &ChannelParent) -> (r: Result<MongolChannelParent, ServerError>)
        ensures
            match *value {
                ChannelParent::Chat(chat) => converted(
                    r,
                    chat_ids(chat),
                    |m: MongolChannelParent|
                        match m {
                            MongolChannelParent::Chat(mc) => chat_stored(mc, chat),
                            _ => false,
                        },
                ),
                ChannelParent::Server(server) => converted(
                    r,
                    server_ids(*server),
                    |m: MongolChannelParent|
                        match m {
                            MongolChannelParent::Server(ms) => server_stored(ms, *server),
                            _ => false,
                        },
                ),
            },
    {
        match value {
            ChannelParent::Chat(chat) => {
                let c = MongolChat::try_from(chat)?;
                Ok(MongolChannelParent::Chat(c))
            },
            ChannelParent::Server(server) => {
                let s = MongolServer::try_from(server)?;
                Ok(MongolChannelParent::Server(s))
            },
        }
    }
}

/// Where the errors of chat updates say they were raised.
pub const CHAT_STACK: &'static str = "src/db/mongol/channel_parent/repository.rs";

/// The new name and users of a stored group chat.
#[derive(Debug)]
pub struct GroupChatUpdate {
    pub chat_id: MongolId,
    pub name: String,
    pub user_ids: Vec<MongolId>,
}

/// The refusal to edit a private chat.
pub open spec fn is_private_edit_error(e: ServerError) -> bool {
    &&& e.kind == Kind::Update
    &&& e.on_type == OnType::ChatPrivate
    &&& e.stack@ == CHAT_STACK@
    &&& e.debug_info@.len() == 0
    &&& e.pub_info is None
    &&& e.client == Some(ClientError::PrivateChatTryEdit)
    &&& e.child is None
}

/// The update of `update_chat`: a private chat cannot be edited; a group
/// chat gets its name and users replaced. Fails on the group's first id that
/// is not a UUID, chat id before user ids.
pub fn group_chat_update(chat: &Chat) -> (r: Result<GroupChatUpdate, ServerError>)
    ensures
        match *chat {
            Chat::Private(_) => r matches Err(e) && is_private_edit_error(e),
            Chat::Group(g) => converted(
                r,
                seq![g.id@] + string_texts(g.user_ids@),
                |u: GroupChatUpdate|
                    u.chat_id == id_of(g.id@) && u.name@ == g.name@ && u.user_ids@ == ids_of(
                        string_texts(g.user_ids@),
                    ),
            ),
        },
{
    match chat {
        Chat::Private(_) => {
            Err(ServerError::new(Kind::Update, OnType::ChatPrivate, CHAT_STACK).add_client(
                ClientError::PrivateChatTryEdit,
            ))
        },
        Chat::Group(group) => {
            let ghost a = seq![group.id@];
            let ghost b = string_texts(group.user_ids@);
            let chat_id = match convert_domain_id_to_mongol(group.id.as_str()) {
                Ok(v) => v,
                Err(e) => {
                    proof {
                        lemma_single_invalid(e, group.id@);
                        lemma_invalid_before_rest(e, a, b);
                    }
                    return Err(e);
                },
            };
            assert(all_parse(a)) by {
                assert(a[0] == group.id@);
            }
            let mut user_ids: Vec<&str> = Vec::new();
            let mut i: usize = 0;
            while i < group.user_ids.len()
                invariant
                    i <= group.user_ids@.len(),
                    texts(user_ids@) =~= b.take(i as int),
                    b == string_texts(group.user_ids@),
                decreases group.user_ids@.len() - i,
            {
                user_ids.push(group.user_ids[i].as_str());
                assert(b.take(i + 1) =~= b.take(i as int).push(group.user_ids@[i as int]@));
                i += 1;
            }
            assert(texts(user_ids@) =~= b);
            let users = match convert_domain_ids_to_mongol(user_ids.as_slice()) {
                Ok(v) => v,
                Err(e) => {
                    proof {
                        let k = choose|k: int|
                            {
                                &&& 0 <= k < user_ids@.len()
                                &&& all_parse(texts(user_ids@).take(k))
                                &&& parsed_uuid(#[trigger] user_ids@[k]@) is None
                                &&& crate::db::mongol::helper::is_invalid_id_error(
                                    e,
                                    user_ids@[k]@,
                                )
                            };
                        assert(b[k] == user_ids@[k]@);
                        assert(first_invalid_id_error(e, b));
                        lemma_invalid_after_valid(e, a, b);
                    }
                    return Err(e);
                },
            };
            proof {
                assert(all_parse(b));
                lemma_all_parse_concat(a, b);
                assert(users@ =~= ids_of(b)) by {
                    assert forall|j: int| 0 <= j < b.len() implies users@[j] == ids_of(b)[j] by {
                        assert(parsed_uuid(user_ids@[j]@) == Some(users@[j].0));
                        assert(b[j] == user_ids@[j]@);
                    }
                }
            }
            Ok(GroupChatUpdate { chat_id, name: group.name.clone(), user_ids: users })
        },
    }
}

/// What an existing chat is looked up by before a new one is made: a
/// private chat by its owners, a group chat by its name, owner and users.
#[derive(Debug)]
pub enum ChatExistsFilter {
    PrivateOwners { owner_ids: Vec<MongolId> },
    Group { name: String, owner_id: MongolId, user_ids: Vec<MongolId> },
}

/// The lookup for a chat like the stored chat `chat`.
pub fn chat_exists_filter(chat: MongolChat) -> (r: ChatExistsFilter)
    ensures
        match chat {
            MongolChat::Private(p) => r matches ChatExistsFilter::PrivateOwners { owner_ids }
                && owner_ids@ == p.owner_ids@,
            MongolChat::Group(g) => r matches ChatExistsFilter::Group { name, owner_id, user_ids }
                && name@ == g.name@ && owner_id == g.owner_id && user_ids@ == g.user_ids@,
        },
{
    match chat {
        MongolChat::Private(p) => ChatExistsFilter::PrivateOwners { owner_ids: p.owner_ids },
        MongolChat::Group(g) => ChatExistsFilter::Group {
            name: g.name,
            owner_id: g.owner_id,
            user_ids: g.user_ids,
        },
    }
}

/// Adding a user to a server: the server id, then the user id, converted.
pub fn server_user_push(server_id: &str, user_id: &str) -> (r: Result<(MongolId, MongolId), ServerError>)
    ensures
        match r {
            Ok((s, u)) => pair_parses(server_id@, user_id@) && s == parsed_id(server_id@) && u
                == parsed_id(user_id@),
            Err(e) => !pair_parses(server_id@, user_id@) && pair_error(e, server_id@, user_id@),
        },
{
    convert_user_pair(server_id, user_id)
}

/// The error when storage could not add a user to a server: the server
/// cannot gain users; the storage error's text, the server id and the user
/// are the debug information.
pub fn cant_gain_users_error(error_text: String, server_id: &str, user_id: &str) -> (e: ServerError)
    ensures
        e.kind == Kind::CantGainUsers,
        e.on_type == OnType::Server,
        e.stack@ == SERVER_STACK@,
        e.debug_view() == seq![
            ("error"@, error_text@),
            ("server id"@, server_id@),
            ("user to add"@, user_id@),
        ],
        e.pub_info is None,
        e.client is None,
        e.child is None,
{
    let ghost t = error_text@;
    let e = ServerError::new(Kind::CantGainUsers, OnType::Server, SERVER_STACK);
    let e = e.add_debug_info("error", error_text);
    let e = e.add_debug_info("server id", server_id.to_string());
    let e = e.add_debug_info("user to add", user_id.to_string());
    assert(e.debug_view() =~= seq![("error"@, t), ("server id"@, server_id@), ("user to add"@, user_id@)]);
    e
}

/// Where the errors of the server storage say they were raised.
pub const SERVER_STACK: &'static str = "src/db/mongol/channel_parent/repository.rs";

/// No text occurs twice.
pub open spec fn distinct_texts(keys: Seq<Seq<char>>) -> bool {
    forall|i: int, j: int| 0 <= i < j < keys.len() ==> keys[i] != keys[j]
}

/// The keys of entries.
pub open spec fn entry_keys<V>(entries: Seq<(Seq<char>, V)>) -> Seq<Seq<char>> {
    entries.map_values(|e: (Seq<char>, V)| e.0)
}

/// The keys of a server's maps occur once each: user ids, channel ids,
/// role names and the users of role assignments.
pub open spec fn server_keys_distinct(value: Server) -> bool {
    &&& distinct_texts(string_texts(value.user_ids@))
    &&& distinct_texts(channel_ids(value.channels@))
    &&& distinct_texts(entry_keys(role_entries(value.roles@)))
    &&& distinct_texts(entry_keys(user_role_entries(value.user_roles@)))
}

/// Storing a server keeps its role names and the users of its role
/// assignments distinct. (Its user and channel ids are stored as UUIDs; two
/// distinct texts can name one UUID, as upper and lower case do, so the
/// stored ids are not claimed distinct.)
pub proof fn law_server_role_keys_stay_distinct(m: MongolServer, value: Server)
    requires
        server_stored(m, value),
        server_keys_distinct(value),
    ensures
        distinct_texts(entry_keys(role_entries(m.roles@))),
        distinct_texts(entry_keys(user_role_entries(m.user_roles@))),
{
}

} // verus!
