use vstd::prelude::*;

use crate::db::mongol::helper::{convert_domain_id_to_mongol, is_invalid_id_error};
use crate::db::mongol::stages::{
    count_or_zero, pipeline_count, stages_view, user_text_after, user_text_stages, PipelineStage,
    StageView,
};
use crate::error::ServerError;
use crate::ids::{parsed_uuid, uuid_text, uuid_to_string, MongolId};

verus! {

/// The standing of a user account.
#[derive(Clone, Copy, Debug, PartialEq, Eq, Structural)]
pub enum UserFlag {
    /// A regular account without special standing (stored as "None").
    NoFlag,
    Admin,
    Owner,
}

/// A user as the domain knows it, with its id as UUID text.
#[derive(Debug)]
pub struct User {
    pub id: String,
    pub username: String,
    pub email: String,
    pub hashed_password: String,
    pub flag: UserFlag,
}

impl User {
    /// A user made of its parts.
    pub fn convert(
        id: String,
        username: String,
        email: String,
        hashed_password: String,
        flag: UserFlag,
    ) -> (r: User)
        ensures
            r.id == id,
            r.username == username,
            r.email == email,
            r.hashed_password == hashed_password,
            r.flag == flag,
    {
        User { id, username, email, hashed_password, flag }
    }

    /// The domain user of a stored user: the stored id as UUID text, which
    /// converts back to the same stored id; the other fields as they are.
    pub fn from(value: &MongolUser) -> (r: User)
        ensures
            r.id@ == uuid_text(value._id.0),
            parsed_uuid(r.id@) == Some(value._id.0),
            r.username@ == value.username@,
            r.email@ == value.email@,
            r.hashed_password@ == value.hashed_password@,
            r.flag == value.flag,
    {
        User::convert(
            uuid_to_string(value._id),
            value.username.clone(),
            value.email.clone(),
            value.hashed_password.clone(),
            value.flag,
        )
    }
}

/// The user document stored in MongoDB.
#[derive(Debug)]
pub struct MongolUser {
    pub _id: MongolId,
    pub username: String,
    pub email: String,
    pub hashed_password: String,
    pub flag: UserFlag,
}

/// The stored user of a domain user, or why there is none.
pub open spec fn user_conversion(r: Result<MongolUser, ServerError>, value: User) -> bool {
    match r {
        Ok(m) => {
            &&& parsed_uuid(value.id@) == Some(m._id.0)
            &&& m.username@ == value.username@
            &&& m.email@ == value.email@
            &&& m.hashed_password@ == value.hashed_password@
            &&& m.flag == value.flag
        },
        Err(e) => parsed_uuid(value.id@) is None && is_invalid_id_error(e, value.id@),
    }
}

impl MongolUser {
    /// The stored form of a domain user; fails when its id is not a UUID.
    pub fn try_from(value: &User) -> (r: Result<MongolUser, ServerError>)
        ensures
            user_conversion(r, *value),
    {
        let user_id = convert_domain_id_to_mongol(value.id.as_str())?;
        Ok(
            MongolUser {
                _id: user_id,
                username: value.username.clone(),
                email: value.email.clone(),
                hashed_password: value.hashed_password.clone(),
                flag: value.flag,
            },
        )
    }
}

/// Stored users, one per domain user.
#[derive(Debug)]
pub struct MongolUserVec(pub Vec<MongolUser>);

impl MongolUserVec {
    /// The stored forms of domain users, in order; fails with the error of the
    /// first user whose id is not a UUID.
    pub fn try_from(value: &Vec<User>) -> (r: Result<MongolUserVec, ServerError>)
        ensures
            match r {
                Ok(users) => {
                    &&& users.0@.len() == value@.len()
                    &&& forall|i: int|
                        0 <= i < value@.len() ==> user_conversion(
                            Ok(#[trigger] users.0@[i]),
                            value@[i],
                        )
                },
                Err(e) => exists|k: int|
                    {
                        &&& 0 <= k < value@.len()
                        &&& forall|j: int|
                            0 <= j < k ==> parsed_uuid(#[trigger] value@[j].id@) is Some
                        &&& user_conversion(Err(e), #[trigger] value@[k])
                    },
            },
    {
        let mut db_users: Vec<MongolUser> = Vec::new();
        let mut i: usize = 0;
        while i < value.len()
            invariant
                i <= value@.len(),
                db_users@.len() == i,
                forall|j: int|
                    0 <= j < i ==> user_conversion(Ok(#[trigger] db_users@[j]), value@[j]),
            decreases value@.len() - i,
        {
            match MongolUser::try_from(&value[i]) {
                Ok(u) => db_users.push(u),
                Err(e) => {
                    assert forall|j: int| 0 <= j < i implies parsed_uuid(
                        #[trigger] value@[j].id@,
                    ) is Some by {
                        assert(user_conversion(Ok(db_users@[j]), value@[j]));
                    }
                    return Err(e);
                },
            }
            i += 1;
        }
        Ok(MongolUserVec(db_users))
    }
}

/// The pipeline that reads one page of users: their ids as text, `skip`
/// users skipped and at most `page_size` read (each as 0 where it does not
/// fit in an `i32`).
pub fn users_page_pipeline(skip: u64, page_size: u64) -> (r: Vec<PipelineStage>)
    ensures
        stages_view(r@) == user_text_stages() + seq![
            StageView::Skip { count: count_or_zero(skip) },
            StageView::Limit { count: count_or_zero(page_size) },
        ],
{
    let empty: Vec<PipelineStage> = Vec::new();
    assert(stages_view(empty@) =~= Seq::<StageView>::empty());
    let mut r = user_text_after(empty);
    let ghost before = stages_view(r@);
    r.push(PipelineStage::Skip { count: pipeline_count(skip) });
    r.push(PipelineStage::Limit { count: pipeline_count(page_size) });
    assert(stages_view(r@) =~= before + seq![
        StageView::Skip { count: count_or_zero(skip) },
        StageView::Limit { count: count_or_zero(page_size) },
    ]);
    r
}

} // verus!
