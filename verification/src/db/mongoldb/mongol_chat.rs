use vstd::prelude::*;

use crate::db::mongoldb::mongol_chat_info::{
    chat_info_conversion, ChatInfo, MongolChatInfo, MongolChatInfoWrapper,
};
use crate::db::mongoldb::mongol_helper::{
    all_valid, convert_domain_id_to_mongol, convert_ids, first_invalid, ids_from, is_invalid_id,
    lemma_invalid_after, lemma_invalid_head, lemma_valid_concat, texts_of, MongolError,
};
use crate::db::mongol::stages::{
    first_group_after, first_group_stages, first_private_after, first_private_stages,
    first_server_after, first_server_stages, single, stages_view, PipelineStage, StageView,
};
use crate::ids::{parsed_uuid, MongolId};

verus! {

/// A chat as the first layout knows it: its id, its members and its chat
/// info (a server has one chat info per channel).
#[derive(Debug)]
pub enum Chat {
    Private { id: String, owner_ids: Vec<String>, chat_info: ChatInfo },
    Group { id: String, name: String, owner_id: String, user_ids: Vec<String>, chat_info: ChatInfo },
    Server {
        id: String,
        name: String,
        owner_id: String,
        user_ids: Vec<String>,
        chat_infos: Vec<ChatInfo>,
    },
}

/// The stored chat of the first layout, without its id.
#[derive(Debug)]
pub enum MongolChat {
    Private { owner_ids: Vec<MongolId>, chat_info: MongolChatInfo },
    Group { name: String, owner_id: MongolId, user_ids: Vec<MongolId>, chat_info: MongolChatInfo },
    Server { name: String, owner_id: MongolId, user_ids: Vec<MongolId>, chat_infos: Vec<MongolChatInfo> },
}

/// The stored chat with its id.
#[derive(Debug)]
pub struct MongolChatWrapper {
    pub _id: MongolId,
    pub chat: MongolChat,
}

/// The ids of chat infos.
pub open spec fn info_ids(infos: Seq<ChatInfo>) -> Seq<Seq<char>> {
    infos.map_values(|c: ChatInfo| c.id@)
}

/// The ids of a chat in the order they are converted: the chat's id, then
/// the owner (or owners), then the users, then the chat info ids.
pub open spec fn first_chat_ids(value: Chat) -> Seq<Seq<char>> {
    match value {
        Chat::Private { id, owner_ids, chat_info } => seq![id@] + texts_of(owner_ids@) + seq![
            chat_info.id@,
        ],
        Chat::Group { id, owner_id, user_ids, chat_info, .. } => seq![id@, owner_id@] + texts_of(
            user_ids@,
        ) + seq![chat_info.id@],
        Chat::Server { id, owner_id, user_ids, chat_infos, .. } => seq![id@, owner_id@] + texts_of(
            user_ids@,
        ) + info_ids(chat_infos@),
    }
}

/// The stored form of one chat info.
pub open spec fn info_stored(m: MongolChatInfo, c: ChatInfo) -> bool {
    chat_info_conversion(Ok(m), c)
}

/// The stored chat of a chat whose ids are all UUIDs.
pub open spec fn first_chat_stored(w: MongolChatWrapper, value: Chat) -> bool {
    match (w.chat, value) {
        (
            MongolChat::Private { owner_ids: m_owners, chat_info: m_info },
            Chat::Private { id, owner_ids, chat_info },
        ) => {
            &&& w._id == MongolId(parsed_uuid(id@)->0)
            &&& m_owners@ == ids_from(texts_of(owner_ids@))
            &&& info_stored(m_info, chat_info)
        },
        (
            MongolChat::Group { name: m_name, owner_id: m_owner, user_ids: m_users, chat_info: m_info },
            Chat::Group { id, name, owner_id, user_ids, chat_info },
        ) => {
            &&& w._id == MongolId(parsed_uuid(id@)->0)
            &&& m_name@ == name@
            &&& m_owner == MongolId(parsed_uuid(owner_id@)->0)
            &&& m_users@ == ids_from(texts_of(user_ids@))
            &&& info_stored(m_info, chat_info)
        },
        (
            MongolChat::Server { name: m_name, owner_id: m_owner, user_ids: m_users, chat_infos: m_infos },
            Chat::Server { id, name, owner_id, user_ids, chat_infos },
        ) => {
            &&& w._id == MongolId(parsed_uuid(id@)->0)
            &&& m_name@ == name@
            &&& m_owner == MongolId(parsed_uuid(owner_id@)->0)
            &&& m_users@ == ids_from(texts_of(user_ids@))
            &&& m_infos@.len() == chat_infos@.len()
            &&& forall|i: int|
                0 <= i < chat_infos@.len() ==> info_stored(#[trigger] m_infos@[i], chat_infos@[i])
        },
        _ => false,
    }
}

/// A first invalid id stays the first one when more ids follow.
proof fn lemma_invalid_before(e: MongolError, a: Seq<Seq<char>>, b: Seq<Seq<char>>)
    requires
        first_invalid(e, a),
    ensures
        first_invalid(e, a + b),
{
    let k = choose|k: int|
        {
            &&& 0 <= k < a.len()
            &&& all_valid(a.take(k))
            &&& parsed_uuid(#[trigger] a[k]) is None
            &&& is_invalid_id(e, a[k])
        };
    assert((a + b).take(k) =~= a.take(k));
    assert((a + b)[k] == a[k]);
}

/// One valid id.
proof fn lemma_single_valid(id: Seq<char>)
    requires
        parsed_uuid(id) is Some,
    ensures
        all_valid(seq![id]),
{
    assert(seq![id][0] == id);
}

/// Converts an id, an optional owner id and user ids, in that order.
fn convert_head(id: &String, owner_id: Option<&String>, user_ids: &Vec<String>) -> (r: Result<
    (MongolId, Option<MongolId>, Vec<MongolId>),
    MongolError,
>)
    ensures
        ({
            let ids = match owner_id {
                Some(o) => seq![id@, o@],
                None => seq![id@],
            } + texts_of(user_ids@);
            match r {
                Ok((i, o, u)) => {
                    &&& all_valid(ids)
                    &&& i == MongolId(parsed_uuid(id@)->0)
                    &&& match owner_id {
                        Some(t) => o == Some(MongolId(parsed_uuid(t@)->0)),
                        None => o is None,
                    }
                    &&& u@ == ids_from(texts_of(user_ids@))
                },
                Err(e) => first_invalid(e, ids),
            }
        }),
{
    let ghost users = texts_of(user_ids@);
    let chat_id = match convert_domain_id_to_mongol(id.as_str()) {
        Ok(v) => v,
        Err(e) => {
            proof {
                match owner_id {
                    Some(o) => {
                        lemma_invalid_head(e, id@, seq![o@] + users);
                        assert(seq![id@] + (seq![o@] + users) =~= seq![id@, o@] + users);
                    },
                    None => lemma_invalid_head(e, id@, users),
                }
            }
            return Err(e);
        },
    };
    proof {
        lemma_single_valid(id@);
    }
    let owner = match owner_id {
        Some(o) => match convert_domain_id_to_mongol(o.as_str()) {
            Ok(v) => {
                proof {
                    lemma_single_valid(o@);
                    lemma_valid_concat(seq![id@], seq![o@]);
                    assert(seq![id@] + seq![o@] =~= seq![id@, o@]);
                }
                Some(v)
            },
            Err(e) => {
                proof {
                    lemma_invalid_head(e, o@, users);
                    lemma_invalid_after(e, seq![id@], seq![o@] + users);
                    assert(seq![id@] + (seq![o@] + users) =~= seq![id@, o@] + users);
                }
                return Err(e);
            },
        },
        None => None,
    };
    let ghost head = match owner_id {
        Some(o) => seq![id@, o@],
        None => seq![id@],
    };
    assert(all_valid(head));
    let users_ids = match convert_ids(user_ids) {
        Ok(v) => v,
        Err(e) => {
            proof {
                lemma_invalid_after(e, head, users);
            }
            return Err(e);
        },
    };
    proof {
        lemma_valid_concat(head, users);
    }
    Ok((chat_id, owner, users_ids))
}

/// Converts a chat info after ids that all parsed.
fn convert_info(info: &ChatInfo, Ghost(before): Ghost<Seq<Seq<char>>>) -> (r: Result<
    MongolChatInfo,
    MongolError,
>)
    requires
        all_valid(before),
    ensures
        match r {
            Ok(m) => all_valid(before + seq![info.id@]) && info_stored(m, *info),
            Err(e) => first_invalid(e, before + seq![info.id@]),
        },
{
    match MongolChatInfo::try_from(info) {
        Ok(m) => {
            proof {
                lemma_single_valid(info.id@);
                lemma_valid_concat(before, seq![info.id@]);
            }
            Ok(m)
        },
        Err(e) => {
            proof {
                lemma_invalid_head(e, info.id@, Seq::empty());
                assert(seq![info.id@] + Seq::<Seq<char>>::empty() =~= seq![info.id@]);
                lemma_invalid_after(e, before, seq![info.id@]);
            }
            Err(e)
        },
    }
}

impl MongolChatWrapper {
    /// The stored form of a chat; fails with the error of its first id that
    /// is not a UUID, in the order: chat id, owner (or owners), users, chat
    /// infos.
    pub fn try_from(value: &Chat) -> (r: Result<MongolChatWrapper, MongolError>)
        ensures
            match r {
                Ok(w) => all_valid(first_chat_ids(*value)) && first_chat_stored(w, *value),
                Err(e) => first_invalid(e, first_chat_ids(*value)),
            },
    {
        match value {
            Chat::Private { id, owner_ids, chat_info } => {
                let (db_id, _, owners) = match convert_head(id, None, owner_ids) {
                    Ok(v) => v,
                    Err(e) => {
                        proof {
                            lemma_invalid_before(e, seq![id@] + texts_of(owner_ids@), seq![chat_info.id@]);
                        }
                        return Err(e);
                    },
                };
                let info = convert_info(
                    chat_info,
                    Ghost(seq![id@] + texts_of(owner_ids@)),
                )?;
                Ok(MongolChatWrapper {
                    _id: db_id,
                    chat: MongolChat::Private { owner_ids: owners, chat_info: info },
                })
            },
            Chat::Group { id, name, owner_id, user_ids, chat_info } => {
                let (db_id, owner, users) = match convert_head(id, Some(owner_id), user_ids) {
                    Ok(v) => v,
                    Err(e) => {
                        proof {
                            lemma_invalid_before(
                                e,
                                seq![id@, owner_id@] + texts_of(user_ids@),
                                seq![chat_info.id@],
                            );
                        }
                        return Err(e);
                    },
                };
                let info = convert_info(
                    chat_info,
                    Ghost(seq![id@, owner_id@] + texts_of(user_ids@)),
                )?;
                let owner = match owner {
                    Some(o) => o,
                    None => db_id,
                };
                Ok(MongolChatWrapper {
                    _id: db_id,
                    chat: MongolChat::Group {
                        name: name.clone(),
                        owner_id: owner,
                        user_ids: users,
                        chat_info: info,
                    },
                })
            },
            Chat::Server { id, name, owner_id, user_ids, chat_infos } => {
                let (db_id, owner, users) = match convert_head(id, Some(owner_id), user_ids) {
                    Ok(v) => v,
                    Err(e) => {
                        proof {
                            lemma_invalid_before(
                                e,
                                seq![id@, owner_id@] + texts_of(user_ids@),
                                info_ids(chat_infos@),
                            );
                        }
                        return Err(e);
                    },
                };
                let ghost head = seq![id@, owner_id@] + texts_of(user_ids@);
                let infos = match MongolChatInfoWrapper::try_from(chat_infos) {
                    Ok(w) => {
                        proof {
                            let t = info_ids(chat_infos@);
                            assert forall|i: int| 0 <= i < t.len() implies (#[trigger] parsed_uuid(
                                t[i],
                            )) is Some by {
                                assert(chat_info_conversion(Ok(w.0@[i]), chat_infos@[i]));
                            }
                            lemma_valid_concat(head, t);
                        }
                        w.0
                    },
                    Err(e) => {
                        proof {
                            let t = info_ids(chat_infos@);
                            let k = choose|k: int|
                                {
                                    &&& 0 <= k < chat_infos@.len()
                                    &&& forall|j: int|
                                        0 <= j < k ==> parsed_uuid(
                                            #[trigger] chat_infos@[j].id@,
                                        ) is Some
                                    &&& chat_info_conversion(Err(e), #[trigger] chat_infos@[k])
                                };
                            assert(t[k] == chat_infos@[k].id@);
                            assert forall|i: int| 0 <= i < t.take(k).len() implies (
                            #[trigger] parsed_uuid(t.take(k)[i])) is Some by {
                                assert(t.take(k)[i] == chat_infos@[i].id@);
                            }
                            assert(first_invalid(e, t));
                            lemma_invalid_after(e, head, t);
                        }
                        return Err(e);
                    },
                };
                let owner = match owner {
                    Some(o) => o,
                    None => db_id,
                };
                Ok(MongolChatWrapper {
                    _id: db_id,
                    chat: MongolChat::Server {
                        name: name.clone(),
                        owner_id: owner,
                        user_ids: users,
                        chat_infos: infos,
                    },
                })
            },
        }
    }
}

/// The errors of reading chats in the first layout.
#[derive(Debug)]
pub enum ChatReadError {
    /// Storage could not be read; the storage error's text.
    FailedRead(String),
    ChatNotFound,
    /// Storage answered in an unexpected way; the error's text.
    UnexpectedError(String),
}

/// The kind of a stored chat of the first layout.
#[derive(Clone, Copy, Debug, PartialEq, Eq, Structural)]
pub enum FirstChatKind {
    Private,
    Group,
    Server,
}

/// The pipeline that reads a chat of the given kind in full after the match
/// stage `filter`; the server pipeline leaves the filter out.
pub open spec fn first_chat_stages(kind: FirstChatKind, filter: StageView) -> Seq<StageView> {
    match kind {
        FirstChatKind::Private => seq![filter] + first_private_stages(),
        FirstChatKind::Group => seq![filter] + first_group_stages(),
        FirstChatKind::Server => first_server_stages(),
    }
}

/// Builds the pipeline of `first_chat_stages`.
pub fn first_chat_pipeline(kind: FirstChatKind, filter: PipelineStage) -> (r: Vec<PipelineStage>)
    ensures
        stages_view(r@) == first_chat_stages(kind, filter@),
{
    match kind {
        FirstChatKind::Private => first_private_after(single(filter)),
        FirstChatKind::Group => first_group_after(single(filter)),
        FirstChatKind::Server => {
            let empty: Vec<PipelineStage> = Vec::new();
            assert(stages_view(empty@) =~= Seq::<StageView>::empty());
            let r = first_server_after(empty);
            assert(stages_view(r@) =~= first_server_stages());
            r
        },
    }
}

/// Reading a chat by id, after the chat document was looked up by the id
/// `id`: no chat is `ChatNotFound`; a chat gives the pipeline of its kind
/// matched by `_id`.
pub fn chat_by_id_step(found: Option<FirstChatKind>, id: MongolId) -> (r: Result<
    Vec<PipelineStage>,
    ChatReadError,
>)
    ensures
        match found {
            None => r matches Err(ChatReadError::ChatNotFound),
            Some(k) => r matches Ok(p) && stages_view(p@) == first_chat_stages(
                k,
                StageView::MatchId { field: "_id", id },
            ),
        },
{
    match found {
        None => Err(ChatReadError::ChatNotFound),
        Some(k) => Ok(first_chat_pipeline(k, PipelineStage::MatchId { field: "_id", id })),
    }
}

/// The match stage that reading by chat info id `id` uses for a chat of the
/// given kind: a private or group chat by its `_id`, a server chat by the
/// ids of its chat infos.
pub open spec fn chat_info_filter(kind: FirstChatKind, id: MongolId) -> StageView {
    match kind {
        FirstChatKind::Server => StageView::MatchId { field: "chat.Server.chat_infos._id", id },
        _ => StageView::MatchId { field: "_id", id },
    }
}

/// Reading a chat by the id of one of its chat infos, after the chat
/// document was looked up by that id: no chat is `ChatNotFound`; a chat
/// gives the pipeline of its kind after the kind's match stage.
pub fn chat_by_chat_info_step(found: Option<FirstChatKind>, id: MongolId) -> (r: Result<
    Vec<PipelineStage>,
    ChatReadError,
>)
    ensures
        match found {
            None => r matches Err(ChatReadError::ChatNotFound),
            Some(k) => r matches Ok(p) && stages_view(p@) == first_chat_stages(k, chat_info_filter(k, id)),
        },
{
    match found {
        None => Err(ChatReadError::ChatNotFound),
        Some(k) => {
            let filter = match k {
                FirstChatKind::Server => PipelineStage::MatchId {
                    field: "chat.Server.chat_infos._id",
                    id,
                },
                _ => PipelineStage::MatchId { field: "_id", id },
            };
            Ok(first_chat_pipeline(k, filter))
        },
    }
}

/// The last step of reading a chat: the chat read, or else `ChatNotFound`.
pub fn first_chat_result(found: Option<Chat>) -> (r: Result<Chat, ChatReadError>)
    ensures
        match found {
            Some(c) => r == Ok::<Chat, ChatReadError>(c),
            None => r matches Err(ChatReadError::ChatNotFound),
        },
{
    match found {
        Some(c) => Ok(c),
        None => Err(ChatReadError::ChatNotFound),
    }
}

} // verus!
