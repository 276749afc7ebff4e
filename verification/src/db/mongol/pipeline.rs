use vstd::prelude::*;

use crate::db::mongol::channel::{
    channel_parent_lookup, parent_lookup_spec, MongolChannel, ParentLookup, ParentType,
};
use crate::db::mongol::channel_parent::{Chat, ChannelParent, Group, Private, Server};
use crate::error::{ClientError, Kind, OnType, ServerError};
use crate::db::mongol::stages::{
    group_chat_after, group_chat_stages, private_chat_after, private_chat_stages, server_after,
    server_stages, single, stages_view, PipelineStage, StageView, fills_by_lookup,
    lemma_fills_after, lemma_fills_before, law_group_read_joins_owner_channel_and_users,
    law_private_read_joins_owners_and_channel, law_server_read_joins_owner_users_and_channels,
};
use crate::db::mongol::channel::ParentCollection;
use crate::ids::MongolId;

verus! {

/// Where the errors of fetching a channel's parent say they were raised.
pub const PARENT_STACK: &'static str = "src/db/mongol/channel_parent/repository.rs";

/// The whole pipeline that fetches the parent of the channel `id` of the
/// given parent type: match by the lookup's field, join, and for a server
/// wrap the result under `Server`.
pub open spec fn parent_stages(parent_type: ParentType, id: MongolId) -> Seq<StageView> {
    match parent_type {
        ParentType::ChatPrivate => seq![StageView::MatchId { field: "Private._id", id }]
            + private_chat_stages(),
        ParentType::ChatGroup => seq![StageView::MatchId { field: "Group._id", id }]
            + group_chat_stages(),
        ParentType::Server => seq![StageView::MatchId { field: "channel_ids", id }]
            + server_stages() + seq![StageView::WrapRoot { field: "Server" }],
    }
}

/// The pipeline that fetches the parent of channel `id` of the given type.
pub fn parent_pipeline(parent_type: ParentType, id: MongolId) -> (r: Vec<PipelineStage>)
    ensures
        stages_view(r@) == parent_stages(parent_type, id),
{
    match parent_type {
        ParentType::ChatPrivate => private_chat_after(
            single(PipelineStage::MatchId { field: "Private._id", id }),
        ),
        ParentType::ChatGroup => group_chat_after(
            single(PipelineStage::MatchId { field: "Group._id", id }),
        ),
        ParentType::Server => {
            let mut r = server_after(single(PipelineStage::MatchId { field: "channel_ids", id }));
            let ghost before = stages_view(r@);
            r.push(PipelineStage::WrapRoot { field: "Server" });
            assert(stages_view(r@) =~= before + seq![StageView::WrapRoot { field: "Server" }]);
            r
        },
    }
}

/// How to fetch the parent of a found channel.
#[derive(Debug)]
pub struct ParentPlan {
    pub parent_type: ParentType,
    pub lookup: ParentLookup,
    pub pipeline: Vec<PipelineStage>,
}

/// The error for a channel that is not stored: not found, on a channel,
/// with the channel id as debug information.
pub open spec fn is_channel_not_found(e: ServerError, channel_id: Seq<char>) -> bool {
    &&& e.kind == Kind::NotFound
    &&& e.on_type == OnType::Channel
    &&& e.stack@ == PARENT_STACK@
    &&& e.debug_view() == seq![("channel id"@, channel_id)]
    &&& e.pub_info is None
    &&& e.client is None
    &&& e.child is None
}

/// The step of fetching a channel's parent after the channel was looked up
/// by the id text `channel_id`: no channel gives the not-found error; a
/// channel gives the lookup and pipeline of its parent type.
pub fn channel_parent_step(channel: Option<&MongolChannel>, channel_id: &str) -> (r: Result<
    ParentPlan,
    ServerError,
>)
    ensures
        match channel {
            None => r matches Err(e) && is_channel_not_found(e, channel_id@),
            Some(c) => r matches Ok(p) && p.parent_type == c.parent_type && (
            p.lookup.collection,
            p.lookup.match_field@,
            p.lookup.on_type,
            p.lookup.wrap_as_server,
            ) == parent_lookup_spec(c.parent_type) && stages_view(p.pipeline@) == parent_stages(
                c.parent_type,
                c._id,
            ),
        },
{
    match channel {
        None => {
            let e = ServerError::new(Kind::NotFound, OnType::Channel, PARENT_STACK);
            let e = e.add_debug_info("channel id", channel_id.to_string());
            assert(e.debug_view() =~= seq![("channel id"@, channel_id@)]);
            Err(e)
        },
        Some(c) => Ok(
            ParentPlan {
                parent_type: c.parent_type,
                lookup: channel_parent_lookup(c.parent_type),
                pipeline: parent_pipeline(c.parent_type, c._id),
            },
        ),
    }
}

/// A parent document read back from the pipeline of one parent type.
#[derive(Debug)]
pub enum FetchedParent {
    Private(Private),
    Group(Group),
    Server(Server),
}

/// The parent type that a fetched parent belongs to.
pub open spec fn fetched_type(f: FetchedParent) -> ParentType {
    match f {
        FetchedParent::Private(_) => ParentType::ChatPrivate,
        FetchedParent::Group(_) => ParentType::ChatGroup,
        FetchedParent::Server(_) => ParentType::Server,
    }
}

/// The parent type of a channel parent.
pub open spec fn parent_type_of(p: ChannelParent) -> ParentType {
    match p {
        ChannelParent::Chat(Chat::Private(_)) => ParentType::ChatPrivate,
        ChannelParent::Chat(Chat::Group(_)) => ParentType::ChatGroup,
        ChannelParent::Server(_) => ParentType::Server,
    }
}

/// The channel parent of a fetched parent.
pub open spec fn parent_of(f: FetchedParent) -> ChannelParent {
    match f {
        FetchedParent::Private(p) => ChannelParent::Chat(Chat::Private(p)),
        FetchedParent::Group(g) => ChannelParent::Chat(Chat::Group(g)),
        FetchedParent::Server(s) => ChannelParent::Server(Box::new(s)),
    }
}

/// An error without debug information.
pub open spec fn is_bare_error(e: ServerError, kind: Kind, on_type: OnType) -> bool {
    &&& e.kind == kind
    &&& e.on_type == on_type
    &&& e.stack@ == PARENT_STACK@
    &&& e.debug_info@.len() == 0
    &&& e.pub_info is None
    &&& e.client is None
    &&& e.child is None
}

/// The last step of fetching a channel's parent, from what the pipeline of
/// the channel's parent type gave back: nothing is an unexpected error on a
/// channel parent; a parent of that type is the result; a document of
/// another shape does not parse as the parent (a parse error).
pub fn channel_parent_result(parent_type: ParentType, found: Option<FetchedParent>) -> (r: Result<
    ChannelParent,
    ServerError,
>)
    ensures
        match found {
            None => r matches Err(e) && is_bare_error(e, Kind::Unexpected, OnType::ChannelParent),
            Some(f) => if fetched_type(f) == parent_type {
                r == Ok::<ChannelParent, ServerError>(parent_of(f))
            } else {
                r matches Err(e) && is_bare_error(e, Kind::Parse, OnType::ChannelParent)
            },
        },
        r matches Ok(p) ==> parent_type_of(p) == parent_type,
        found matches Some(FetchedParent::Private(x)) ==> (parent_type == ParentType::ChatPrivate ==> r == Ok::<ChannelParent, ServerError>(ChannelParent::Chat(Chat::Private(x)))),
        found matches Some(FetchedParent::Group(x)) ==> (parent_type == ParentType::ChatGroup ==> r == Ok::<ChannelParent, ServerError>(ChannelParent::Chat(Chat::Group(x)))),
        found matches Some(FetchedParent::Server(x)) ==> (parent_type == ParentType::Server ==> r == Ok::<ChannelParent, ServerError>(ChannelParent::Server(Box::new(x)))),
        r matches Ok(ChannelParent::Chat(Chat::Private(_))) ==> parent_type
            == ParentType::ChatPrivate,
        r matches Ok(ChannelParent::Chat(Chat::Group(_))) ==> parent_type == ParentType::ChatGroup,
        r matches Ok(ChannelParent::Server(_)) ==> parent_type == ParentType::Server,
{
    match found {
        None => Err(ServerError::new(Kind::Unexpected, OnType::ChannelParent, PARENT_STACK)),
        Some(f) => {
            let matches_type = match (&f, parent_type) {
                (FetchedParent::Private(_), ParentType::ChatPrivate) => true,
                (FetchedParent::Group(_), ParentType::ChatGroup) => true,
                (FetchedParent::Server(_), ParentType::Server) => true,
                _ => false,
            };
            if matches_type {
                match f {
                    FetchedParent::Private(p) => Ok(ChannelParent::Chat(Chat::Private(p))),
                    FetchedParent::Group(g) => Ok(ChannelParent::Chat(Chat::Group(g))),
                    FetchedParent::Server(s) => Ok(ChannelParent::Server(Box::new(s))),
                }
            } else {
                Err(ServerError::new(Kind::Parse, OnType::ChannelParent, PARENT_STACK))
            }
        },
    }
}

/// The error for a chat that is not stored: not found, on a chat, with the
/// chat id as debug information.
pub open spec fn is_chat_not_found(e: ServerError, chat_id: Seq<char>) -> bool {
    &&& e.kind == Kind::NotFound
    &&& e.on_type == OnType::Chat
    &&& e.stack@ == PARENT_STACK@
    &&& e.debug_view() == seq![("chat id"@, chat_id)]
    &&& e.pub_info is None
    &&& e.client is None
    &&& e.child is None
}

/// The not-found error of a chat id.
fn chat_not_found(chat_id: &str) -> (r: ServerError)
    ensures
        is_chat_not_found(r, chat_id@),
{
    let e = ServerError::new(Kind::NotFound, OnType::Chat, PARENT_STACK);
    let e = e.add_debug_info("chat id", chat_id.to_string());
    assert(e.debug_view() =~= seq![("chat id"@, chat_id@)]);
    e
}

/// How to read a chat in full.
#[derive(Debug)]
pub struct ChatPlan {
    pub parent_type: ParentType,
    pub pipeline: Vec<PipelineStage>,
}

/// The kind of a stored chat.
#[derive(Clone, Copy, Debug, PartialEq, Eq, Structural)]
pub enum ChatKind {
    Private,
    Group,
}

/// The parent type of a chat kind.
pub open spec fn chat_parent_type(c: ChatKind) -> ParentType {
    match c {
        ChatKind::Private => ParentType::ChatPrivate,
        ChatKind::Group => ParentType::ChatGroup,
    }
}

/// The step of reading a chat after its stored form was looked up by the
/// id `id` (the text `chat_id` converted), from the kind of the chat found:
/// no chat gives the not-found error
/// with the chat id; a chat gives the pipeline that joins a chat of its kind
/// matched by that id.
pub fn chat_step(found: Option<ChatKind>, chat_id: &str, id: MongolId) -> (r: Result<
    ChatPlan,
    ServerError,
>)
    ensures
        match found {
            None => r matches Err(e) && is_chat_not_found(e, chat_id@),
            Some(c) => r matches Ok(p) && p.parent_type == chat_parent_type(c) && stages_view(
                p.pipeline@,
            ) == parent_stages(chat_parent_type(c), id),
        },
{
    match found {
        None => Err(chat_not_found(chat_id)),
        Some(c) => {
            let parent_type = match c {
                ChatKind::Private => ParentType::ChatPrivate,
                ChatKind::Group => ParentType::ChatGroup,
            };
            Ok(ChatPlan { parent_type, pipeline: parent_pipeline(parent_type, id) })
        },
    }
}

/// The chat of a fetched parent, where it is one.
pub open spec fn chat_of(f: FetchedParent) -> Chat
    recommends
        !(f is Server),
{
    match f {
        FetchedParent::Private(p) => Chat::Private(p),
        FetchedParent::Group(g) => Chat::Group(g),
        FetchedParent::Server(_) => arbitrary(),
    }
}

/// The last step of reading a chat, from what its pipeline gave back:
/// nothing is the not-found error with the chat id; a chat of the planned
/// kind is the result; anything else does not parse as that chat.
pub fn chat_result(parent_type: ParentType, found: Option<FetchedParent>, chat_id: &str) -> (r:
    Result<Chat, ServerError>)
    ensures
        match found {
            None => r matches Err(e) && is_chat_not_found(e, chat_id@),
            Some(f) => if fetched_type(f) == parent_type && !(f is Server) {
                r == Ok::<Chat, ServerError>(chat_of(f))
            } else {
                r matches Err(e) && e.kind == Kind::Parse && e.on_type == OnType::Chat
                    && e.stack@ == PARENT_STACK@ && e.debug_info@.len() == 0
            },
        },
        found matches Some(FetchedParent::Private(x)) ==> (parent_type == ParentType::ChatPrivate ==> r == Ok::<Chat, ServerError>(Chat::Private(x))),
        found matches Some(FetchedParent::Group(x)) ==> (parent_type == ParentType::ChatGroup ==> r == Ok::<Chat, ServerError>(Chat::Group(x))),
        r matches Ok(Chat::Private(_)) ==> parent_type == ParentType::ChatPrivate,
        r matches Ok(Chat::Group(_)) ==> parent_type == ParentType::ChatGroup,
{
    match found {
        None => Err(chat_not_found(chat_id)),
        Some(f) => {
            let wanted = match (&f, parent_type) {
                (FetchedParent::Private(_), ParentType::ChatPrivate) => true,
                (FetchedParent::Group(_), ParentType::ChatGroup) => true,
                _ => false,
            };
            if wanted {
                match f {
                    FetchedParent::Private(p) => Ok(Chat::Private(p)),
                    FetchedParent::Group(g) => Ok(Chat::Group(g)),
                    FetchedParent::Server(_) => Err(
                        ServerError::new(Kind::Parse, OnType::Chat, PARENT_STACK),
                    ),
                }
            } else {
                Err(ServerError::new(Kind::Parse, OnType::Chat, PARENT_STACK))
            }
        },
    }
}

/// The pipeline that reads the server with id `id` in full.
pub fn server_by_id_pipeline(id: MongolId) -> (r: Vec<PipelineStage>)
    ensures
        stages_view(r@) == seq![StageView::MatchId { field: "_id", id }] + server_stages(),
{
    server_after(single(PipelineStage::MatchId { field: "_id", id }))
}

/// The pipeline that reads in full the server holding the channel `id`.
pub fn server_by_channel_pipeline(id: MongolId) -> (r: Vec<PipelineStage>)
    ensures
        stages_view(r@) == seq![StageView::MatchId { field: "channel_ids._id", id }]
            + server_stages(),
{
    server_after(single(PipelineStage::MatchId { field: "channel_ids._id", id }))
}

/// Reading a server by id: nothing found is a not-found error on a server
/// that tells the client the server was not found.
pub fn server_by_id_result(found: Option<Server>) -> (r: Result<Server, ServerError>)
    ensures
        match found {
            Some(s) => r == Ok::<Server, ServerError>(s),
            None => r matches Err(e) && e.kind == Kind::NotFound && e.on_type == OnType::Server
                && e.stack@ == PARENT_STACK@ && e.debug_info@.len() == 0 && e.pub_info is None
                && e.client == Some(ClientError::ServerNotFound) && e.child is None,
        },
{
    match found {
        Some(s) => Ok(s),
        None => Err(
            ServerError::new(Kind::NotFound, OnType::Server, PARENT_STACK).add_client(
                ClientError::ServerNotFound,
            ),
        ),
    }
}

/// Reading the server of a channel: nothing found is a bare not-found error
/// on a server.
pub fn server_by_channel_result(found: Option<Server>) -> (r: Result<Server, ServerError>)
    ensures
        match found {
            Some(s) => r == Ok::<Server, ServerError>(s),
            None => r matches Err(e) && is_bare_error(e, Kind::NotFound, OnType::Server),
        },
{
    match found {
        Some(s) => Ok(s),
        None => Err(ServerError::new(Kind::NotFound, OnType::Server, PARENT_STACK)),
    }
}

/// A channel's parent is looked for where that kind of parent is kept:
/// private and group chats in the chats collection by the chat's own id
/// field, servers in the servers collection by their channel ids and
/// wrapped as a server. The pipeline first matches the channel's id on that
/// same field, and only a server's result is wrapped.
pub proof fn law_parent_is_looked_up_where_it_is_kept(parent_type: ParentType, id: MongolId)
    ensures
        (parent_lookup_spec(parent_type).0 == ParentCollection::Chats) <==> (parent_type
            == ParentType::ChatPrivate || parent_type == ParentType::ChatGroup),
        parent_type == ParentType::ChatPrivate ==> parent_lookup_spec(parent_type).1
            == "Private._id"@,
        parent_type == ParentType::ChatGroup ==> parent_lookup_spec(parent_type).1 == "Group._id"@,
        parent_type == ParentType::Server ==> parent_lookup_spec(parent_type).1 == "channel_ids"@,
        parent_lookup_spec(parent_type).3 <==> parent_type == ParentType::Server,
        parent_stages(parent_type, id)[0] matches StageView::MatchId { field, id: matched }
            && field@ == parent_lookup_spec(parent_type).1 && matched == id,
        parent_type == ParentType::Server <==> parent_stages(parent_type, id).last()
            == (StageView::WrapRoot { field: "Server" }),
{
    let s = parent_stages(parent_type, id);
    match parent_type {
        ParentType::ChatPrivate => {
            assert(s.last() == private_chat_stages().last());
        },
        ParentType::ChatGroup => {
            assert(s.last() == group_chat_stages().last());
        },
        ParentType::Server => {},
    }
}

/// The pipeline that fetches a group chat parent joins the chat's users
/// from its `Group.user_ids`.
pub proof fn law_group_parent_joins_its_users(id: MongolId)
    ensures
        fills_by_lookup(parent_stages(ParentType::ChatGroup, id), "Group.users", "users", "Group.user_ids"),
{
    law_group_read_joins_owner_channel_and_users();
    lemma_fills_after(StageView::MatchId { field: "Group._id", id }, group_chat_stages(), "Group.users", "users", "Group.user_ids");
}

/// The pipeline that fetches a private chat parent joins the chat's owners
/// from its `Private.owner_ids`.
pub proof fn law_private_parent_joins_its_owners(id: MongolId)
    ensures
        fills_by_lookup(parent_stages(ParentType::ChatPrivate, id), "Private.owners", "users", "Private.owner_ids"),
{
    law_private_read_joins_owners_and_channel();
    lemma_fills_after(StageView::MatchId { field: "Private._id", id }, private_chat_stages(), "Private.owners", "users", "Private.owner_ids");
}

/// The pipeline that fetches a server parent joins the server's channels,
/// from the channels collection, by its `channel_ids`.
pub proof fn law_server_parent_joins_its_channels(id: MongolId)
    ensures
        fills_by_lookup(parent_stages(ParentType::Server, id), "channels", "channels", "channel_ids"),
{
    law_server_read_joins_owner_users_and_channels();
    let joined = seq![StageView::MatchId { field: "channel_ids", id }] + server_stages();
    lemma_fills_after(StageView::MatchId { field: "channel_ids", id }, server_stages(), "channels", "channels", "channel_ids");
    lemma_fills_before(joined, seq![StageView::WrapRoot { field: "Server" }], "channels", "channels", "channel_ids");
}

} // verus!
