use vstd::prelude::*;

use crate::db::mongol::channel::{channel_conversion, MongolChannel, ParentType};
use crate::db::mongol::channel_parent::{id_of, Group, Private};
use crate::db::mongol::helper::{
    all_parse, convert_domain_id_to_mongol, convert_id_list, first_invalid_id_error, ids_of,
    lemma_all_parse_concat, lemma_invalid_after_valid, lemma_invalid_before_rest,
    lemma_single_invalid, string_texts,
};
use crate::error::ServerError;
use crate::ids::MongolId;

verus! {

/// A chat kept whole in one document, with its channel embedded.
#[derive(Debug)]
pub enum MongolChat {
    Private { owner_ids: Vec<MongolId>, channel: MongolChannel },
    Group { name: String, owner_id: MongolId, user_ids: Vec<MongolId>, channel: MongolChannel },
}

/// The chat document: the chat's id beside the chat.
#[derive(Debug)]
pub struct MongolChatWrapper {
    pub _id: MongolId,
    pub chat: MongolChat,
}

/// A chat as the single-document layout stores it.
#[derive(Debug)]
pub enum ChatParent {
    Private(Private),
    Group(Group),
}

/// The ids of a chat in the order this layout converts them.
pub open spec fn wrapped_chat_ids(value: ChatParent) -> Seq<Seq<char>> {
    match value {
        ChatParent::Private(p) => seq![p.id@] + string_texts(p.owner_ids@) + seq![p.channel.id@],
        ChatParent::Group(g) => seq![g.id@, g.owner_id@] + string_texts(g.user_ids@) + seq![
            g.channel.id@,
        ],
    }
}

/// The document of a chat.
pub open spec fn wrapped_chat_stored(m: MongolChatWrapper, value: ChatParent) -> bool {
    match (m.chat, value) {
        (MongolChat::Private { owner_ids, channel }, ChatParent::Private(p)) => {
            &&& m._id == id_of(p.id@)
            &&& owner_ids@ == ids_of(string_texts(p.owner_ids@))
            &&& channel_conversion(Ok(channel), p.channel, ParentType::ChatPrivate)
        },
        (MongolChat::Group { name, owner_id, user_ids, channel }, ChatParent::Group(g)) => {
            &&& m._id == id_of(g.id@)
            &&& name@ == g.name@
            &&& owner_id == id_of(g.owner_id@)
            &&& user_ids@ == ids_of(string_texts(g.user_ids@))
            &&& channel_conversion(Ok(channel), g.channel, ParentType::ChatGroup)
        },
        _ => false,
    }
}

impl MongolChatWrapper {
    /// The document of a chat; fails on its first id that is not a UUID, in
    /// the order: chat id, owner id(s), user ids, channel id.
    pub fn try_from(value: &ChatParent) -> (r: Result<MongolChatWrapper, ServerError>)
        ensures
            match r {
                Ok(m) => all_parse(wrapped_chat_ids(*value)) && wrapped_chat_stored(m, *value),
                Err(e) => first_invalid_id_error(e, wrapped_chat_ids(*value)),
            },
    {
        match value {
            ChatParent::Private(private_chat) => {
                let ghost a = seq![private_chat.id@];
                let ghost b = string_texts(private_chat.owner_ids@);
                let ghost c = seq![private_chat.channel.id@];
                let db_id = match convert_domain_id_to_mongol(private_chat.id.as_str()) {
                    Ok(v) => v,
                    Err(e) => {
                        proof {
                            lemma_single_invalid(e, private_chat.id@);
                            lemma_invalid_before_rest(e, a, b);
                            lemma_invalid_before_rest(e, a + b, c);
                        }
                        return Err(e);
                    },
                };
                assert(all_parse(a)) by {
                    assert(a[0] == private_chat.id@);
                }
                let owner_ids = match convert_id_list(&private_chat.owner_ids) {
                    Ok(v) => v,
                    Err(e) => {
                        proof {
                            lemma_invalid_after_valid(e, a, b);
                            lemma_invalid_before_rest(e, a + b, c);
                        }
                        return Err(e);
                    },
                };
                proof {
                    lemma_all_parse_concat(a, b);
                }
                let channel = match MongolChannel::try_from_channel(
                    &private_chat.channel,
                    ParentType::ChatPrivate,
                ) {
                    Ok(v) => v,
                    Err(e) => {
                        proof {
                            lemma_single_invalid(e, private_chat.channel.id@);
                            lemma_invalid_after_valid(e, a + b, c);
                        }
                        return Err(e);
                    },
                };
                proof {
                    assert(all_parse(c)) by {
                        assert(c[0] == private_chat.channel.id@);
                    }
                    lemma_all_parse_concat(a + b, c);
                }
                Ok(MongolChatWrapper { _id: db_id, chat: MongolChat::Private { owner_ids, channel } })
            },
            ChatParent::Group(group) => {
                let ghost a = seq![group.id@];
                let ghost b = seq![group.owner_id@];
                let ghost c = string_texts(group.user_ids@);
                let ghost d = seq![group.channel.id@];
                assert(wrapped_chat_ids(*value) =~= a + b + c + d);
                let db_id = match convert_domain_id_to_mongol(group.id.as_str()) {
                    Ok(v) => v,
                    Err(e) => {
                        proof {
                            lemma_single_invalid(e, group.id@);
                            lemma_invalid_before_rest(e, a, b);
                            lemma_invalid_before_rest(e, a + b, c);
                            lemma_invalid_before_rest(e, a + b + c, d);
                        }
                        return Err(e);
                    },
                };
                assert(all_parse(a)) by {
                    assert(a[0] == group.id@);
                }
                let owner_id = match convert_domain_id_to_mongol(group.owner_id.as_str()) {
                    Ok(v) => v,
                    Err(e) => {
                        proof {
                            lemma_single_invalid(e, group.owner_id@);
                            lemma_invalid_after_valid(e, a, b);
                            lemma_invalid_before_rest(e, a + b, c);
                            lemma_invalid_before_rest(e, a + b + c, d);
                        }
                        return Err(e);
                    },
                };
                proof {
                    assert(all_parse(b)) by {
                        assert(b[0] == group.owner_id@);
                    }
                    lemma_all_parse_concat(a, b);
                }
                let user_ids = match convert_id_list(&group.user_ids) {
                    Ok(v) => v,
                    Err(e) => {
                        proof {
                            lemma_invalid_after_valid(e, a + b, c);
                            lemma_invalid_before_rest(e, a + b + c, d);
                        }
                        return Err(e);
                    },
                };
                proof {
                    lemma_all_parse_concat(a + b, c);
                }
                let channel = match MongolChannel::try_from_channel(
                    &group.channel,
                    ParentType::ChatGroup,
                ) {
                    Ok(v) => v,
                    Err(e) => {
                        proof {
                            lemma_single_invalid(e, group.channel.id@);
                            lemma_invalid_after_valid(e, a + b + c, d);
                        }
                        return Err(e);
                    },
                };
                proof {
                    assert(all_parse(d)) by {
                        assert(d[0] == group.channel.id@);
                    }
                    lemma_all_parse_concat(a + b + c, d);
                }
                Ok(
                    MongolChatWrapper {
                        _id: db_id,
                        chat: MongolChat::Group {
                            name: group.name.clone(),
                            owner_id,
                            user_ids,
                            channel,
                        },
                    },
                )
            },
        }
    }
}

} // verus!
