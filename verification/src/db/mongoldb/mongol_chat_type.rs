use vstd::prelude::*;

use crate::db::mongoldb::mongol_helper::{
    all_valid, convert_domain_id_to_mongol, convert_ids, first_invalid, ids_from,
    lemma_invalid_after, lemma_invalid_head, lemma_valid_concat, texts_of, MongolError,
};
use crate::ids::{parsed_uuid, MongolId};

verus! {

/// The kind of a chat with its members, as the first layout knows it.
#[derive(Debug)]
pub enum ChatType {
    Private { owner_ids: Vec<String> },
    Group { name: String, owner_id: String, user_ids: Vec<String> },
    Server { name: String, owner_id: String, user_ids: Vec<String> },
}

/// The stored kind of a chat.
#[derive(Debug)]
pub enum MongolChatType {
    Private { owner_ids: Vec<MongolId> },
    Group { name: String, owner_id: MongolId, user_ids: Vec<MongolId> },
    Server { name: String, owner_id: MongolId, user_ids: Vec<MongolId> },
}

/// The ids of a chat kind in the order they are converted.
pub open spec fn chat_type_ids(value: ChatType) -> Seq<Seq<char>> {
    match value {
        ChatType::Private { owner_ids } => texts_of(owner_ids@),
        ChatType::Group { owner_id, user_ids, .. } => seq![owner_id@] + texts_of(user_ids@),
        ChatType::Server { owner_id, user_ids, .. } => seq![owner_id@] + texts_of(user_ids@),
    }
}

/// The stored kind of a chat kind.
pub open spec fn chat_type_stored(m: MongolChatType, value: ChatType) -> bool {
    match (m, value) {
        (MongolChatType::Private { owner_ids: m_ids }, ChatType::Private { owner_ids }) => m_ids@
            == ids_from(texts_of(owner_ids@)),
        (
            MongolChatType::Group { name: m_name, owner_id: m_owner, user_ids: m_users },
            ChatType::Group { name, owner_id, user_ids },
        ) => {
            &&& m_name@ == name@
            &&& m_owner == MongolId(parsed_uuid(owner_id@)->0)
            &&& m_users@ == ids_from(texts_of(user_ids@))
        },
        (
            MongolChatType::Server { name: m_name, owner_id: m_owner, user_ids: m_users },
            ChatType::Server { name, owner_id, user_ids },
        ) => {
            &&& m_name@ == name@
            &&& m_owner == MongolId(parsed_uuid(owner_id@)->0)
            &&& m_users@ == ids_from(texts_of(user_ids@))
        },
        _ => false,
    }
}

/// Converts an owner id and user ids, in that order.
fn convert_owner_and_users(owner_id: &String, user_ids: &Vec<String>) -> (r: Result<
    (MongolId, Vec<MongolId>),
    MongolError,
>)
    ensures
        match r {
            Ok((o, u)) => {
                &&& all_valid(seq![owner_id@] + texts_of(user_ids@))
                &&& o == MongolId(parsed_uuid(owner_id@)->0)
                &&& u@ == ids_from(texts_of(user_ids@))
            },
            Err(e) => first_invalid(e, seq![owner_id@] + texts_of(user_ids@)),
        },
{
    let ghost a = seq![owner_id@];
    let ghost b = texts_of(user_ids@);
    let owner = match convert_domain_id_to_mongol(owner_id.as_str()) {
        Ok(v) => v,
        Err(e) => {
            proof {
                lemma_invalid_head(e, owner_id@, b);
            }
            return Err(e);
        },
    };
    assert(all_valid(a)) by {
        assert(a[0] == owner_id@);
    }
    let users = match convert_ids(user_ids) {
        Ok(v) => v,
        Err(e) => {
            proof {
                lemma_invalid_after(e, a, b);
            }
            return Err(e);
        },
    };
    proof {
        lemma_valid_concat(a, b);
    }
    Ok((owner, users))
}

impl MongolChatType {
    /// The stored form of a chat kind; fails on its first id that is not a
    /// UUID, owner before users.
    pub fn try_from(value: &ChatType) -> (r: Result<MongolChatType, MongolError>)
        ensures
            match r {
                Ok(m) => all_valid(chat_type_ids(*value)) && chat_type_stored(m, *value),
                Err(e) => first_invalid(e, chat_type_ids(*value)),
            },
    {
        match value {
            ChatType::Private { owner_ids } => {
                let ids = convert_ids(owner_ids)?;
                Ok(MongolChatType::Private { owner_ids: ids })
            },
            ChatType::Group { name, owner_id, user_ids } => {
                let (owner, users) = convert_owner_and_users(owner_id, user_ids)?;
                Ok(MongolChatType::Group { name: name.clone(), owner_id: owner, user_ids: users })
            },
            ChatType::Server { name, owner_id, user_ids } => {
                let (owner, users) = convert_owner_and_users(owner_id, user_ids)?;
                Ok(MongolChatType::Server { name: name.clone(), owner_id: owner, user_ids: users })
            },
        }
    }
}

} // verus!
