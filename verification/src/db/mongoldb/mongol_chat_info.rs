use vstd::prelude::*;

use crate::db::mongoldb::mongol_helper::{convert_domain_id_to_mongol, is_invalid_id};
use crate::ids::{parsed_uuid, MongolId};

verus! {

/// The identity and optional name of a chat.
#[derive(Debug)]
pub struct ChatInfo {
    pub id: String,
    pub name: Option<String>,
}

/// The stored chat info.
#[derive(Debug)]
pub struct MongolChatInfo {
    pub _id: MongolId,
    pub name: Option<String>,
}

/// An optional text as an optional character sequence.
pub open spec fn name_view(s: Option<String>) -> Option<Seq<char>> {
    match s {
        Some(t) => Some(t@),
        None => None,
    }
}

/// The stored chat info of a chat info, or why there is none.
pub open spec fn chat_info_conversion(
    r: Result<MongolChatInfo, crate::db::mongoldb::mongol_helper::MongolError>,
    value: ChatInfo,
) -> bool {
    match r {
        Ok(m) => parsed_uuid(value.id@) == Some(m._id.0) && name_view(m.name) == name_view(
            value.name,
        ),
        Err(e) => parsed_uuid(value.id@) is None && is_invalid_id(e, value.id@),
    }
}

impl MongolChatInfo {
    /// The stored form of a chat info; fails when its id is not a UUID.
    pub fn try_from(value: &ChatInfo) -> (r: Result<
        MongolChatInfo,
        crate::db::mongoldb::mongol_helper::MongolError,
    >)
        ensures
            chat_info_conversion(r, *value),
    {
        let chat_id = convert_domain_id_to_mongol(value.id.as_str())?;
        let name = match &value.name {
            Some(n) => Some(n.clone()),
            None => None,
        };
        Ok(MongolChatInfo { _id: chat_id, name })
    }
}

/// Stored chat infos, one per chat info.
#[derive(Debug)]
pub struct MongolChatInfoWrapper(pub Vec<MongolChatInfo>);

impl MongolChatInfoWrapper {
    /// The stored forms of chat infos, in order; fails with the error of the
    /// first whose id is not a UUID.
    pub fn try_from(value: &Vec<ChatInfo>) -> (r: Result<
        MongolChatInfoWrapper,
        crate::db::mongoldb::mongol_helper::MongolError,
    >)
        ensures
            match r {
                Ok(w) => {
                    &&& w.0@.len() == value@.len()
                    &&& forall|i: int|
                        0 <= i < value@.len() ==> chat_info_conversion(
                            Ok(#[trigger] w.0@[i]),
                            value@[i],
                        )
                },
                Err(e) => exists|k: int|
                    {
                        &&& 0 <= k < value@.len()
                        &&& forall|j: int|
                            0 <= j < k ==> parsed_uuid(#[trigger] value@[j].id@) is Some
                        &&& chat_info_conversion(Err(e), #[trigger] value@[k])
                    },
            },
    {
        let mut out: Vec<MongolChatInfo> = Vec::new();
        let mut i: usize = 0;
        while i < value.len()
            invariant
                i <= value@.len(),
                out@.len() == i,
                forall|j: int|
                    0 <= j < i ==> chat_info_conversion(Ok(#[trigger] out@[j]), value@[j]),
            decreases value@.len() - i,
        {
            match MongolChatInfo::try_from(&value[i]) {
                Ok(c) => out.push(c),
                Err(e) => {
                    assert forall|j: int| 0 <= j < i implies parsed_uuid(
                        #[trigger] value@[j].id@,
                    ) is Some by {
                        assert(chat_info_conversion(Ok(out@[j]), value@[j]));
                    }
                    return Err(e);
                },
            }
            i += 1;
        }
        Ok(MongolChatInfoWrapper(out))
    }
}

} // verus!
