use vstd::prelude::*;

use crate::db::mongol::relation::{
    blocked_lists, block_view, confirm_view, friend_lists, friend_request_view, friendship_lists,
    incoming_friendship_lists, list_of, outgoing_friendship_lists, query_view, remove_blocked_view,
    remove_friend_view, without, RelationList, RelationView, UpdateView,
};
use crate::ids::MongolId;

verus! {

/// Removing an id from a list leaves no occurrence of it.
pub proof fn lemma_without_removes(ids: Seq<MongolId>, id: MongolId)
    ensures
        !without(ids, id).contains(id),
{
    let pred = |x: MongolId| x != id;
    if without(ids, id).contains(id) {
        let k = choose|k: int| 0 <= k < without(ids, id).len() && without(ids, id)[k] == id;
        ids.lemma_filter_pred(pred, k);
    }
}

/// Appending an id to a list makes the list hold it.
pub proof fn lemma_push_holds(ids: Seq<MongolId>, id: MongolId)
    ensures
        ids.push(id).contains(id),
{
    assert(ids.push(id)[ids.len() as int] == id);
}

/// After a friend request from `current` to `other`, the current user's
/// document lists a pending outgoing request (so `does_outgoing_friendship_exist`
/// answers yes), and the other user's document lists the pending incoming
/// request (so `does_incoming_friendship_exist` answers yes for the other user).
pub proof fn law_friend_request_is_pending_on_both_sides(
    current: MongolId,
    other: MongolId,
    current_doc: RelationView,
    other_doc: RelationView,
)
    requires
        current_doc.user_id == current,
        other_doc.user_id == other,
    ensures
        query_view(current, other, outgoing_friendship_lists()).matches(
            friend_request_view(current, other).applied_to(current_doc),
        ),
        query_view(other, current, incoming_friendship_lists()).matches(
            friend_request_view(current, other).applied_to(other_doc),
        ),
{
    let t = friend_request_view(current, other);
    let c1 = t.first.applied_to(current_doc);
    lemma_push_holds(c1.outgoing, other);
    let c2 = t.applied_to(current_doc);
    assert(list_of(c2, query_view(current, other, outgoing_friendship_lists()).any_of[0]).contains(other));
    let o1 = t.first.applied_to(other_doc);
    lemma_push_holds(other_doc.incoming, current);
    if current == other {
        assert(o1.incoming == other_doc.incoming.push(current));
    }
    let o2 = t.applied_to(other_doc);
    assert(o2.incoming == o1.incoming);
    assert(list_of(o2, query_view(other, current, incoming_friendship_lists()).any_of[0]).contains(current));
}

/// A friend request between two different users touches nothing but the two
/// pending lists: friends and blocked lists of both documents stay as they were.
pub proof fn law_friend_request_keeps_friends_and_blocks(
    current: MongolId,
    other: MongolId,
    current_doc: RelationView,
    other_doc: RelationView,
)
    requires
        current != other,
        current_doc.user_id == current,
        other_doc.user_id == other,
    ensures
        friend_request_view(current, other).applied_to(current_doc).friends == current_doc.friends,
        friend_request_view(current, other).applied_to(current_doc).blocked == current_doc.blocked,
        friend_request_view(current, other).applied_to(current_doc).incoming
            == current_doc.incoming,
        friend_request_view(current, other).applied_to(other_doc).friends == other_doc.friends,
        friend_request_view(current, other).applied_to(other_doc).blocked == other_doc.blocked,
        friend_request_view(current, other).applied_to(other_doc).outgoing == other_doc.outgoing,
{
}

/// After a confirmation the two users are each other's friends
/// (`does_friendship_exist` answers yes both ways) and the request is no
/// longer pending on either side.
pub proof fn law_confirm_makes_mutual_friends(
    current: MongolId,
    other: MongolId,
    current_doc: RelationView,
    other_doc: RelationView,
)
    requires
        current_doc.user_id == current,
        other_doc.user_id == other,
    ensures
        query_view(current, other, friendship_lists()).matches(
            confirm_view(current, other).applied_to(current_doc),
        ),
        query_view(other, current, friendship_lists()).matches(
            confirm_view(current, other).applied_to(other_doc),
        ),
        !confirm_view(current, other).applied_to(current_doc).incoming.contains(other),
        !confirm_view(current, other).applied_to(other_doc).outgoing.contains(current),
{
    let t = confirm_view(current, other);
    let c1 = t.first.applied_to(current_doc);
    let c2 = t.applied_to(current_doc);
    lemma_push_holds(c1.friends, other);
    assert(list_of(c2, query_view(current, other, friendship_lists()).any_of[0]).contains(other));
    lemma_without_removes(c1.incoming, other);
    assert(t.second.pull.contains(RelationList::PendingIncoming)) by {
        assert(t.second.pull[0] == RelationList::PendingIncoming);
    }
    assert(t.first.pull.contains(RelationList::PendingOutgoing)) by {
        assert(t.first.pull[0] == RelationList::PendingOutgoing);
    }
    let o1 = t.first.applied_to(other_doc);
    let o2 = t.applied_to(other_doc);
    lemma_push_holds(other_doc.friends, current);
    lemma_without_removes(other_doc.outgoing, current);
    if current == other {
        lemma_push_holds(o1.friends, other);
        lemma_without_removes(o1.incoming, other);
        assert(!t.second.pull.contains(RelationList::PendingOutgoing)) by {
            assert(t.second.pull.len() == 1);
            if t.second.pull.contains(RelationList::PendingOutgoing) {
                let k = choose|k: int|
                    0 <= k < t.second.pull.len() && t.second.pull[k]
                        == RelationList::PendingOutgoing;
            }
        }
        assert(o2.outgoing == o1.outgoing);
    } else {
        assert(o2 == o1);
        assert(o1.friends == other_doc.friends.push(current));
    }
    assert(list_of(o2, query_view(other, current, friendship_lists()).any_of[0]).contains(current));
}

/// After blocking, the current user's document lists the other user as
/// blocked (`does_blocked_exist` answers yes), and neither document keeps a
/// friendship or a pending request between the two (`does_friendship_exist`,
/// `does_outgoing_friendship_exist` and `does_incoming_friendship_exist` answer
/// no, in both directions).
pub proof fn law_block_ends_friendship(
    current: MongolId,
    other: MongolId,
    current_doc: RelationView,
    other_doc: RelationView,
)
    requires
        current_doc.user_id == current,
        other_doc.user_id == other,
    ensures
        query_view(current, other, blocked_lists()).matches(
            block_view(current, other).applied_to(current_doc),
        ),
        !query_view(current, other, friendship_lists()).matches(
            block_view(current, other).applied_to(current_doc),
        ),
        !query_view(current, other, outgoing_friendship_lists()).matches(
            block_view(current, other).applied_to(current_doc),
        ),
        !query_view(current, other, incoming_friendship_lists()).matches(
            block_view(current, other).applied_to(current_doc),
        ),
        !query_view(other, current, friendship_lists()).matches(
            block_view(current, other).applied_to(other_doc),
        ),
        !query_view(other, current, outgoing_friendship_lists()).matches(
            block_view(current, other).applied_to(other_doc),
        ),
        !query_view(other, current, incoming_friendship_lists()).matches(
            block_view(current, other).applied_to(other_doc),
        ),
{
    let t = block_view(current, other);
    assert(friend_lists().contains(RelationList::Friends)) by {
        assert(friend_lists()[0] == RelationList::Friends);
    }
    assert(friend_lists().contains(RelationList::PendingIncoming)) by {
        assert(friend_lists()[1] == RelationList::PendingIncoming);
    }
    assert(friend_lists().contains(RelationList::PendingOutgoing)) by {
        assert(friend_lists()[2] == RelationList::PendingOutgoing);
    }
    let c1 = t.first.applied_to(current_doc);
    let c2 = t.applied_to(current_doc);
    lemma_without_removes(c1.friends, other);
    lemma_without_removes(c1.incoming, other);
    lemma_without_removes(c1.outgoing, other);
    lemma_push_holds(c1.blocked, other);
    assert(list_of(c2, query_view(current, other, blocked_lists()).any_of[0]).contains(other));
    assert forall|i: int| 0 <= i < query_view(current, other, friendship_lists()).any_of.len() implies !list_of(
        c2,
        #[trigger] query_view(current, other, friendship_lists()).any_of[i],
    ).contains(other) by {}
    assert forall|i: int| 0 <= i < query_view(current, other, outgoing_friendship_lists()).any_of.len() implies !list_of(
        c2,
        #[trigger] query_view(current, other, outgoing_friendship_lists()).any_of[i],
    ).contains(other) by {}
    assert forall|i: int| 0 <= i < query_view(current, other, incoming_friendship_lists()).any_of.len() implies !list_of(
        c2,
        #[trigger] query_view(current, other, incoming_friendship_lists()).any_of[i],
    ).contains(other) by {}
    let o1 = t.first.applied_to(other_doc);
    let o2 = t.applied_to(other_doc);
    lemma_without_removes(other_doc.friends, current);
    lemma_without_removes(other_doc.incoming, current);
    lemma_without_removes(other_doc.outgoing, current);
    if current == other {
        lemma_without_removes(o1.friends, other);
        lemma_without_removes(o1.incoming, other);
        lemma_without_removes(o1.outgoing, other);
    } else {
        assert(o2 == o1);
    }
    assert forall|i: int| 0 <= i < query_view(other, current, friendship_lists()).any_of.len() implies !list_of(
        o2,
        #[trigger] query_view(other, current, friendship_lists()).any_of[i],
    ).contains(current) by {}
    assert forall|i: int| 0 <= i < query_view(other, current, outgoing_friendship_lists()).any_of.len() implies !list_of(
        o2,
        #[trigger] query_view(other, current, outgoing_friendship_lists()).any_of[i],
    ).contains(current) by {}
    assert forall|i: int| 0 <= i < query_view(other, current, incoming_friendship_lists()).any_of.len() implies !list_of(
        o2,
        #[trigger] query_view(other, current, incoming_friendship_lists()).any_of[i],
    ).contains(current) by {}
}

/// Removing a friend leaves neither a friendship nor an outgoing request on
/// the current user's side, and keeps the blocked list.
pub proof fn law_remove_friend_ends_friendship(
    current: MongolId,
    other: MongolId,
    current_doc: RelationView,
)
    requires
        current_doc.user_id == current,
    ensures
        !query_view(current, other, friendship_lists()).matches(
            remove_friend_view(current, other).applied_to(current_doc),
        ),
        !query_view(current, other, outgoing_friendship_lists()).matches(
            remove_friend_view(current, other).applied_to(current_doc),
        ),
        remove_friend_view(current, other).applied_to(current_doc).blocked == current_doc.blocked,
        remove_friend_view(current, other).applied_to(current_doc).incoming
            == current_doc.incoming,
{
    let u = remove_friend_view(current, other);
    assert(u.pull[0] == RelationList::Friends);
    assert(u.pull[1] == RelationList::PendingOutgoing);
    assert(!u.pull.contains(RelationList::Blocked)) by {
        if u.pull.contains(RelationList::Blocked) {
            let k = choose|k: int| 0 <= k < u.pull.len() && u.pull[k] == RelationList::Blocked;
        }
    }
    assert(!u.pull.contains(RelationList::PendingIncoming)) by {
        if u.pull.contains(RelationList::PendingIncoming) {
            let k = choose|k: int|
                0 <= k < u.pull.len() && u.pull[k] == RelationList::PendingIncoming;
        }
    }
    let c = u.applied_to(current_doc);
    lemma_without_removes(current_doc.friends, other);
    lemma_without_removes(current_doc.outgoing, other);
    assert forall|i: int| 0 <= i < query_view(current, other, friendship_lists()).any_of.len() implies !list_of(
        c,
        #[trigger] query_view(current, other, friendship_lists()).any_of[i],
    ).contains(other) by {}
    assert forall|i: int| 0 <= i < query_view(current, other, outgoing_friendship_lists()).any_of.len() implies !list_of(
        c,
        #[trigger] query_view(current, other, outgoing_friendship_lists()).any_of[i],
    ).contains(other) by {}
}

/// Unblocking leaves the other user out of the current user's blocked list
/// (`does_blocked_exist` answers no) and keeps every other list.
pub proof fn law_unblock_ends_block(current: MongolId, other: MongolId, current_doc: RelationView)
    requires
        current_doc.user_id == current,
    ensures
        !query_view(current, other, blocked_lists()).matches(
            remove_blocked_view(current, other).applied_to(current_doc),
        ),
        remove_blocked_view(current, other).applied_to(current_doc).friends == current_doc.friends,
        remove_blocked_view(current, other).applied_to(current_doc).incoming
            == current_doc.incoming,
        remove_blocked_view(current, other).applied_to(current_doc).outgoing
            == current_doc.outgoing,
{
    let u = remove_blocked_view(current, other);
    assert(u.pull[0] == RelationList::Blocked);
    assert forall|l: RelationList| l != RelationList::Blocked implies !u.pull.contains(l) by {
        if u.pull.contains(l) {
            let k = choose|k: int| 0 <= k < u.pull.len() && u.pull[k] == l;
        }
    }
    let c = u.applied_to(current_doc);
    lemma_without_removes(current_doc.blocked, other);
    assert forall|i: int| 0 <= i < query_view(current, other, blocked_lists()).any_of.len() implies !list_of(
        c,
        #[trigger] query_view(current, other, blocked_lists()).any_of[i],
    ).contains(other) by {}
}

/// An update never changes whose document it is, and leaves the documents of
/// other users as they were.
pub proof fn law_update_only_touches_its_user(u: UpdateView, doc: RelationView)
    ensures
        u.applied_to(doc).user_id == doc.user_id,
        doc.user_id != u.user_id ==> u.applied_to(doc) == doc,
{
}

} // verus!
