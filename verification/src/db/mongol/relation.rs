use vstd::prelude::*;

use crate::db::mongol::helper::{convert_domain_id_to_mongol, is_invalid_id_error};
use crate::error::{OnType, ServerError};
use crate::ids::{parsed_uuid, MongolId};

verus! {

/// The relation document of one user: who are friends, who asked to become
/// a friend, whom the user asked, and whom the user blocked.
#[derive(Debug)]
pub struct MongolRelation {
    pub user_id: MongolId,
    pub friend_ids: Vec<MongolId>,
    pub pending_incoming_friend_ids: Vec<MongolId>,
    pub pending_outgoing_friend_ids: Vec<MongolId>,
    pub blocked_ids: Vec<MongolId>,
}

/// The content of a relation document.
pub ghost struct RelationView {
    pub user_id: MongolId,
    pub friends: Seq<MongolId>,
    pub incoming: Seq<MongolId>,
    pub outgoing: Seq<MongolId>,
    pub blocked: Seq<MongolId>,
}

impl View for MongolRelation {
    type V = RelationView;

    open spec fn view(&self) -> RelationView {
        RelationView {
            user_id: self.user_id,
            friends: self.friend_ids@,
            incoming: self.pending_incoming_friend_ids@,
            outgoing: self.pending_outgoing_friend_ids@,
            blocked: self.blocked_ids@,
        }
    }
}

impl MongolRelation {
    /// The relation document of a user without any relation yet.
    pub fn new(user_id: MongolId) -> (r: MongolRelation)
        ensures
            r@ == empty_relation(user_id),
    {
        MongolRelation {
            user_id,
            friend_ids: Vec::new(),
            pending_incoming_friend_ids: Vec::new(),
            pending_outgoing_friend_ids: Vec::new(),
            blocked_ids: Vec::new(),
        }
    }
}

/// A relation document with no entries.
pub open spec fn empty_relation(user_id: MongolId) -> RelationView {
    RelationView {
        user_id,
        friends: Seq::empty(),
        incoming: Seq::empty(),
        outgoing: Seq::empty(),
        blocked: Seq::empty(),
    }
}

/// One of the id lists of a relation document.
#[derive(Clone, Copy, Debug, PartialEq, Eq, Structural)]
pub enum RelationList {
    Friends,
    PendingIncoming,
    PendingOutgoing,
    Blocked,
}

impl RelationList {
    /// The field of the document that holds the list.
    pub fn field_name(&self) -> (r: &'static str)
        ensures
            r@ == relation_field_name(*self),
    {
        match self {
            RelationList::Friends => "friend_ids",
            RelationList::PendingIncoming => "pending_incoming_friend_ids",
            RelationList::PendingOutgoing => "pending_outgoing_friend_ids",
            RelationList::Blocked => "blocked_ids",
        }
    }
}

/// The document field of each list.
pub open spec fn relation_field_name(list: RelationList) -> Seq<char> {
    match list {
        RelationList::Friends => "friend_ids"@,
        RelationList::PendingIncoming => "pending_incoming_friend_ids"@,
        RelationList::PendingOutgoing => "pending_outgoing_friend_ids"@,
        RelationList::Blocked => "blocked_ids"@,
    }
}

/// The ids that a list of the document holds.
pub open spec fn list_of(rel: RelationView, list: RelationList) -> Seq<MongolId> {
    match list {
        RelationList::Friends => rel.friends,
        RelationList::PendingIncoming => rel.incoming,
        RelationList::PendingOutgoing => rel.outgoing,
        RelationList::Blocked => rel.blocked,
    }
}

/// A lookup of the relation document of `user_id` that holds `other` in at
/// least one of the lists `any_of`.
#[derive(Debug)]
pub struct RelationQuery {
    pub user_id: MongolId,
    pub any_of: Vec<RelationList>,
    pub other: MongolId,
}

/// The content of a relation lookup.
pub ghost struct QueryView {
    pub user_id: MongolId,
    pub any_of: Seq<RelationList>,
    pub other: MongolId,
}

impl View for RelationQuery {
    type V = QueryView;

    open spec fn view(&self) -> QueryView {
        QueryView { user_id: self.user_id, any_of: self.any_of@, other: self.other }
    }
}

impl QueryView {
    /// Whether the document answers the lookup.
    pub open spec fn matches(self, rel: RelationView) -> bool {
        &&& rel.user_id == self.user_id
        &&& exists|i: int|
            0 <= i < self.any_of.len() && list_of(rel, #[trigger] self.any_of[i]).contains(
                self.other,
            )
    }
}

/// An update of the relation document of `user_id`: `other` is appended to
/// the list `push` (where there is one) and every occurrence of `other` is
/// removed from each list of `pull`.
#[derive(Debug)]
pub struct RelationUpdate {
    pub user_id: MongolId,
    pub other: MongolId,
    pub push: Option<RelationList>,
    pub pull: Vec<RelationList>,
}

/// The content of a relation update.
pub ghost struct UpdateView {
    pub user_id: MongolId,
    pub other: MongolId,
    pub push: Option<RelationList>,
    pub pull: Seq<RelationList>,
}

impl View for RelationUpdate {
    type V = UpdateView;

    open spec fn view(&self) -> UpdateView {
        UpdateView { user_id: self.user_id, other: self.other, push: self.push, pull: self.pull@ }
    }
}

/// The ids of `ids` other than `id`.
pub open spec fn without(ids: Seq<MongolId>, id: MongolId) -> Seq<MongolId> {
    ids.filter(|x: MongolId| x != id)
}

impl UpdateView {
    /// A list after the update.
    pub open spec fn updated_list(self, list: RelationList, ids: Seq<MongolId>) -> Seq<MongolId> {
        let kept = if self.pull.contains(list) {
            without(ids, self.other)
        } else {
            ids
        };
        if self.push == Some(list) {
            kept.push(self.other)
        } else {
            kept
        }
    }

    /// A relation document after the update; documents of other users stay
    /// as they are.
    pub open spec fn applied_to(self, rel: RelationView) -> RelationView {
        if rel.user_id == self.user_id {
            RelationView {
                user_id: rel.user_id,
                friends: self.updated_list(RelationList::Friends, rel.friends),
                incoming: self.updated_list(RelationList::PendingIncoming, rel.incoming),
                outgoing: self.updated_list(RelationList::PendingOutgoing, rel.outgoing),
                blocked: self.updated_list(RelationList::Blocked, rel.blocked),
            }
        } else {
            rel
        }
    }
}

/// Two updates made in one transaction, `first` on the other user's document
/// and `second` on the current user's; before them, each id of
/// `ensure_exists` gets an empty relation document if it has none.
#[derive(Debug)]
pub struct RelationTransaction {
    pub ensure_exists: Vec<MongolId>,
    pub first: RelationUpdate,
    pub second: RelationUpdate,
    pub on_type: OnType,
}

/// The content of a relation transaction.
pub ghost struct TransactionView {
    pub ensure_exists: Seq<MongolId>,
    pub first: UpdateView,
    pub second: UpdateView,
    pub on_type: OnType,
}

impl View for RelationTransaction {
    type V = TransactionView;

    open spec fn view(&self) -> TransactionView {
        TransactionView {
            ensure_exists: self.ensure_exists@,
            first: self.first@,
            second: self.second@,
            on_type: self.on_type,
        }
    }
}

impl TransactionView {
    /// A relation document after both updates.
    pub open spec fn applied_to(self, rel: RelationView) -> RelationView {
        self.second.applied_to(self.first.applied_to(rel))
    }
}

/// The id that a domain id text converts to (meaningful where it parses).
pub open spec fn parsed_id(text: Seq<char>) -> MongolId {
    MongolId(parsed_uuid(text)->0)
}

/// Both domain ids are UUIDs.
pub open spec fn pair_parses(current: Seq<char>, other: Seq<char>) -> bool {
    parsed_uuid(current) is Some && parsed_uuid(other) is Some
}

/// The error raised for the first of two domain ids that is not a UUID.
pub open spec fn pair_error(e: ServerError, current: Seq<char>, other: Seq<char>) -> bool {
    ||| parsed_uuid(current) is None && is_invalid_id_error(e, current)
    ||| parsed_uuid(current) is Some && parsed_uuid(other) is None && is_invalid_id_error(e, other)
}

/// Converts the ids of the current and the other user.
pub fn convert_user_pair(current_user_id: &str, other_user_id: &str) -> (r: Result<
    (MongolId, MongolId),
    ServerError,
>)
    ensures
        match r {
            Ok((c, o)) => pair_parses(current_user_id@, other_user_id@) && c == parsed_id(
                current_user_id@,
            ) && o == parsed_id(other_user_id@),
            Err(e) => !pair_parses(current_user_id@, other_user_id@) && pair_error(
                e,
                current_user_id@,
                other_user_id@,
            ),
        },
{
    let current = convert_domain_id_to_mongol(current_user_id)?;
    let other = convert_domain_id_to_mongol(other_user_id)?;
    Ok((current, other))
}

/// The lookup for "`current` holds `other` in one of `lists`".
pub open spec fn query_view(current: MongolId, other: MongolId, lists: Seq<RelationList>) -> QueryView {
    QueryView { user_id: current, any_of: lists, other }
}

/// Lists that say the current user and the other are friends.
pub open spec fn friendship_lists() -> Seq<RelationList> {
    seq![RelationList::Friends]
}

/// Lists that say the current user asked the other, or is already a friend.
pub open spec fn outgoing_friendship_lists() -> Seq<RelationList> {
    seq![RelationList::PendingOutgoing, RelationList::Friends]
}

/// Lists that say the other user asked the current one.
pub open spec fn incoming_friendship_lists() -> Seq<RelationList> {
    seq![RelationList::PendingIncoming]
}

/// Lists that say the current user blocked the other.
pub open spec fn blocked_lists() -> Seq<RelationList> {
    seq![RelationList::Blocked]
}

/// What a lookup built from two domain ids is, or why there is none.
pub open spec fn query_result(
    r: Result<RelationQuery, ServerError>,
    current: Seq<char>,
    other: Seq<char>,
    lists: Seq<RelationList>,
) -> bool {
    match r {
        Ok(q) => pair_parses(current, other) && q@ == query_view(
            parsed_id(current),
            parsed_id(other),
            lists,
        ),
        Err(e) => !pair_parses(current, other) && pair_error(e, current, other),
    }
}

/// The lookup of `does_friendship_exist`: the current user's document lists
/// the other user as a friend.
pub fn friendship_query(current_user_id: &str, other_user_id: &str) -> (r: Result<
    RelationQuery,
    ServerError,
>)
    ensures
        query_result(r, current_user_id@, other_user_id@, friendship_lists()),
{
    let (user_id, other) = convert_user_pair(current_user_id, other_user_id)?;
    let any_of = vec![RelationList::Friends];
    assert(any_of@ =~= friendship_lists());
    Ok(RelationQuery { user_id, any_of, other })
}

/// The lookup of `does_outgoing_friendship_exist`: the current user asked the
/// other user, or they are friends already.
pub fn outgoing_friendship_query(current_user_id: &str, other_user_id: &str) -> (r: Result<
    RelationQuery,
    ServerError,
>)
    ensures
        query_result(r, current_user_id@, other_user_id@, outgoing_friendship_lists()),
{
    let (user_id, other) = convert_user_pair(current_user_id, other_user_id)?;
    let any_of = vec![RelationList::PendingOutgoing, RelationList::Friends];
    assert(any_of@ =~= outgoing_friendship_lists());
    Ok(RelationQuery { user_id, any_of, other })
}

/// The lookup of `does_incoming_friendship_exist`: the other user asked the
/// current user.
pub fn incoming_friendship_query(current_user_id: &str, other_user_id: &str) -> (r: Result<
    RelationQuery,
    ServerError,
>)
    ensures
        query_result(r, current_user_id@, other_user_id@, incoming_friendship_lists()),
{
    let (user_id, other) = convert_user_pair(current_user_id, other_user_id)?;
    let any_of = vec![RelationList::PendingIncoming];
    assert(any_of@ =~= incoming_friendship_lists());
    Ok(RelationQuery { user_id, any_of, other })
}

/// The lookup of `does_blocked_exist`: the current user blocked the other.
pub fn blocked_query(current_user_id: &str, other_user_id: &str) -> (r: Result<
    RelationQuery,
    ServerError,
>)
    ensures
        query_result(r, current_user_id@, other_user_id@, blocked_lists()),
{
    let (user_id, other) = convert_user_pair(current_user_id, other_user_id)?;
    let any_of = vec![RelationList::Blocked];
    assert(any_of@ =~= blocked_lists());
    Ok(RelationQuery { user_id, any_of, other })
}

/// Some id of `friends` is not among `others`.
pub open spec fn has_friend_outside(friends: Seq<MongolId>, others: Seq<MongolId>) -> bool {
    exists|i: int| 0 <= i < friends.len() && !others.contains(#[trigger] friends[i])
}

/// The answer of `does_friendships_exist` once the current user's document
/// has been looked up: with a document, whether one of its friends is not
/// among `others`; without one, whether `others` is empty.
pub fn friendships_exist(relation: Option<&MongolRelation>, others: &[MongolId]) -> (r: bool)
    ensures
        r == match relation {
            Some(rel) => has_friend_outside(rel.friend_ids@, others@),
            None => others@.len() == 0,
        },
{
    match relation {
        Some(rel) => {
            let mut i: usize = 0;
            while i < rel.friend_ids.len()
                invariant
                    relation == Some(rel),
                    i <= rel.friend_ids@.len(),
                    forall|j: int| 0 <= j < i ==> others@.contains(#[trigger] rel.friend_ids@[j]),
                decreases rel.friend_ids@.len() - i,
            {
                if !contains_id(others, rel.friend_ids[i]) {
                    assert(!others@.contains(rel.friend_ids@[i as int]));
                    assert(has_friend_outside(rel.friend_ids@, others@));
                    return true;
                }
                i += 1;
            }
            false
        },
        None => others.len() == 0,
    }
}

/// Whether `ids` holds `id`.
pub fn contains_id(ids: &[MongolId], id: MongolId) -> (r: bool)
    ensures
        r == ids@.contains(id),
{
    let mut i: usize = 0;
    while i < ids.len()
        invariant
            i <= ids@.len(),
            forall|j: int| 0 <= j < i ==> ids@[j] != id,
        decreases ids@.len() - i,
    {
        if ids[i] == id {
            return true;
        }
        i += 1;
    }
    false
}

/// The transaction of `add_user_as_friend`: the request is added to the other
/// user's pending incoming list and to the current user's pending outgoing list.
pub open spec fn friend_request_view(current: MongolId, other: MongolId) -> TransactionView {
    TransactionView {
        ensure_exists: seq![current, other],
        first: UpdateView {
            user_id: other,
            other: current,
            push: Some(RelationList::PendingIncoming),
            pull: seq![],
        },
        second: UpdateView {
            user_id: current,
            other,
            push: Some(RelationList::PendingOutgoing),
            pull: seq![],
        },
        on_type: OnType::RelationFriend,
    }
}

/// The transaction of `add_user_as_blocked`: the other user goes into the
/// current user's blocked list, and every friendship or pending request
/// between the two is dropped from both documents.
pub open spec fn block_view(current: MongolId, other: MongolId) -> TransactionView {
    TransactionView {
        ensure_exists: seq![current, other],
        first: UpdateView { user_id: other, other: current, push: None, pull: friend_lists() },
        second: UpdateView {
            user_id: current,
            other,
            push: Some(RelationList::Blocked),
            pull: friend_lists(),
        },
        on_type: OnType::RelationBlocked,
    }
}

/// The lists that hold friends or pending friend requests.
pub open spec fn friend_lists() -> Seq<RelationList> {
    seq![RelationList::Friends, RelationList::PendingIncoming, RelationList::PendingOutgoing]
}

/// The transaction of `confirm_user_as_friend`: each user becomes the other's
/// friend, and the request leaves the pending lists.
pub open spec fn confirm_view(current: MongolId, other: MongolId) -> TransactionView {
    TransactionView {
        ensure_exists: seq![],
        first: UpdateView {
            user_id: other,
            other: current,
            push: Some(RelationList::Friends),
            pull: seq![RelationList::PendingOutgoing],
        },
        second: UpdateView {
            user_id: current,
            other,
            push: Some(RelationList::Friends),
            pull: seq![RelationList::PendingIncoming],
        },
        on_type: OnType::RelationFriend,
    }
}

/// The update of `remove_user_as_friend`: the other user leaves the current
/// user's friends and pending outgoing requests.
pub open spec fn remove_friend_view(current: MongolId, other: MongolId) -> UpdateView {
    UpdateView {
        user_id: current,
        other,
        push: None,
        pull: seq![RelationList::Friends, RelationList::PendingOutgoing],
    }
}

/// The update of `remove_user_as_blocked`: the other user leaves the current
/// user's blocked list.
pub open spec fn remove_blocked_view(current: MongolId, other: MongolId) -> UpdateView {
    UpdateView { user_id: current, other, push: None, pull: seq![RelationList::Blocked] }
}

/// What a transaction built from two domain ids is, or why there is none.
pub open spec fn transaction_result(
    r: Result<RelationTransaction, ServerError>,
    current: Seq<char>,
    other: Seq<char>,
    plan: spec_fn(MongolId, MongolId) -> TransactionView,
) -> bool {
    match r {
        Ok(t) => pair_parses(current, other) && t@ == plan(parsed_id(current), parsed_id(other)),
        Err(e) => !pair_parses(current, other) && pair_error(e, current, other),
    }
}

/// What an update built from two domain ids is, or why there is none.
pub open spec fn update_result(
    r: Result<RelationUpdate, ServerError>,
    current: Seq<char>,
    other: Seq<char>,
    plan: spec_fn(MongolId, MongolId) -> UpdateView,
) -> bool {
    match r {
        Ok(u) => pair_parses(current, other) && u@ == plan(parsed_id(current), parsed_id(other)),
        Err(e) => !pair_parses(current, other) && pair_error(e, current, other),
    }
}

/// The transaction that `add_user_as_friend` runs.
pub fn friend_request_transaction(current_user_id: &str, other_user_id: &str) -> (r: Result<
    RelationTransaction,
    ServerError,
>)
    ensures
        transaction_result(
            r,
            current_user_id@,
            other_user_id@,
            |c: MongolId, o: MongolId| friend_request_view(c, o),
        ),
{
    let (current, other) = convert_user_pair(current_user_id, other_user_id)?;
    let t = RelationTransaction {
        ensure_exists: vec![current, other],
        first: RelationUpdate {
            user_id: other,
            other: current,
            push: Some(RelationList::PendingIncoming),
            pull: Vec::new(),
        },
        second: RelationUpdate {
            user_id: current,
            other,
            push: Some(RelationList::PendingOutgoing),
            pull: Vec::new(),
        },
        on_type: OnType::RelationFriend,
    };
    assert(t@ =~~= friend_request_view(current, other));
    Ok(t)
}

/// The transaction that `add_user_as_blocked` runs.
pub fn block_transaction(current_user_id: &str, other_user_id: &str) -> (r: Result<
    RelationTransaction,
    ServerError,
>)
    ensures
        transaction_result(
            r,
            current_user_id@,
            other_user_id@,
            |c: MongolId, o: MongolId| block_view(c, o),
        ),
{
    let (current, other) = convert_user_pair(current_user_id, other_user_id)?;
    let t = RelationTransaction {
        ensure_exists: vec![current, other],
        first: RelationUpdate {
            user_id: other,
            other: current,
            push: None,
            pull: vec![
                RelationList::Friends,
                RelationList::PendingIncoming,
                RelationList::PendingOutgoing,
            ],
        },
        second: RelationUpdate {
            user_id: current,
            other,
            push: Some(RelationList::Blocked),
            pull: vec![
                RelationList::Friends,
                RelationList::PendingIncoming,
                RelationList::PendingOutgoing,
            ],
        },
        on_type: OnType::RelationBlocked,
    };
    assert(t@ =~~= block_view(current, other));
    Ok(t)
}

/// The transaction that `confirm_user_as_friend` runs.
pub fn confirm_friend_transaction(current_user_id: &str, other_user_id: &str) -> (r: Result<
    RelationTransaction,
    ServerError,
>)
    ensures
        transaction_result(
            r,
            current_user_id@,
            other_user_id@,
            |c: MongolId, o: MongolId| confirm_view(c, o),
        ),
{
    let (current, other) = convert_user_pair(current_user_id, other_user_id)?;
    let t = RelationTransaction {
        ensure_exists: Vec::new(),
        first: RelationUpdate {
            user_id: other,
            other: current,
            push: Some(RelationList::Friends),
            pull: vec![RelationList::PendingOutgoing],
        },
        second: RelationUpdate {
            user_id: current,
            other,
            push: Some(RelationList::Friends),
            pull: vec![RelationList::PendingIncoming],
        },
        on_type: OnType::RelationFriend,
    };
    assert(t.first.pull@ =~= seq![RelationList::PendingOutgoing]);
    assert(t.second.pull@ =~= seq![RelationList::PendingIncoming]);
    assert(t.ensure_exists@ =~= Seq::<MongolId>::empty());
    assert(t@ =~~= confirm_view(current, other));
    Ok(t)
}

/// The update that `remove_user_as_friend` makes.
pub fn remove_friend_update(current_user_id: &str, other_user_id: &str) -> (r: Result<
    RelationUpdate,
    ServerError,
>)
    ensures
        update_result(
            r,
            current_user_id@,
            other_user_id@,
            |c: MongolId, o: MongolId| remove_friend_view(c, o),
        ),
{
    let (current, other) = convert_user_pair(current_user_id, other_user_id)?;
    let u = RelationUpdate {
        user_id: current,
        other,
        push: None,
        pull: vec![RelationList::Friends, RelationList::PendingOutgoing],
    };
    assert(u@ =~~= remove_friend_view(current, other));
    Ok(u)
}

/// The update that `remove_user_as_blocked` makes.
pub fn remove_blocked_update(current_user_id: &str, other_user_id: &str) -> (r: Result<
    RelationUpdate,
    ServerError,
>)
    ensures
        update_result(
            r,
            current_user_id@,
            other_user_id@,
            |c: MongolId, o: MongolId| remove_blocked_view(c, o),
        ),
{
    let (current, other) = convert_user_pair(current_user_id, other_user_id)?;
    let u = RelationUpdate {
        user_id: current,
        other,
        push: None,
        pull: vec![RelationList::Blocked],
    };
    assert(u.pull@ =~= seq![RelationList::Blocked]);
    assert(u@ =~~= remove_blocked_view(current, other));
    Ok(u)
}

} // verus!
