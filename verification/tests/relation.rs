use mogcord::db::mongol::relation::{
    block_transaction, blocked_query, confirm_friend_transaction, contains_id,
    convert_user_pair, friend_request_transaction, friendship_query, friendships_exist,
    incoming_friendship_query, outgoing_friendship_query, remove_blocked_update,
    remove_friend_update, MongolRelation, RelationList,
};
use mogcord::error::{Kind, OnType};
use mogcord::ids::MongolId;

const CUR: &str = "550e8400-e29b-41d4-a716-446655440000";
const OTHER: &str = "6fa459ea-ee8a-3ca4-894e-db77e160355e";
const C: MongolId = MongolId(0x550e8400e29b41d4a716446655440000);
const O: MongolId = MongolId(0x6fa459eaee8a3ca4894edb77e160355e);

#[test]
fn new_relation_is_empty() {
    let r = MongolRelation::new(C);
    assert_eq!(r.user_id, C);
    assert!(r.friend_ids.is_empty());
    assert!(r.pending_incoming_friend_ids.is_empty());
    assert!(r.pending_outgoing_friend_ids.is_empty());
    assert!(r.blocked_ids.is_empty());
}

#[test]
fn user_pair_reports_first_invalid_id() {
    assert_eq!(convert_user_pair(CUR, OTHER).unwrap(), (C, O));
    let e = convert_user_pair("bad", "worse").unwrap_err();
    assert_eq!(e.debug_info[0].1, "bad");
    let e = convert_user_pair(CUR, "worse").unwrap_err();
    assert_eq!(e.debug_info[0].1, "worse");
    assert_eq!(e.kind, Kind::InValid);
}

#[test]
fn queries_look_in_the_right_lists() {
    let q = friendship_query(CUR, OTHER).unwrap();
    assert_eq!((q.user_id, q.other), (C, O));
    assert_eq!(q.any_of, vec![RelationList::Friends]);
    let q = outgoing_friendship_query(CUR, OTHER).unwrap();
    assert_eq!(q.any_of, vec![RelationList::PendingOutgoing, RelationList::Friends]);
    let q = incoming_friendship_query(CUR, OTHER).unwrap();
    assert_eq!(q.any_of, vec![RelationList::PendingIncoming]);
    let q = blocked_query(CUR, OTHER).unwrap();
    assert_eq!(q.any_of, vec![RelationList::Blocked]);
    assert!(blocked_query(CUR, "nope").is_err());
}

#[test]
fn field_names_match_the_document() {
    assert_eq!(RelationList::Friends.field_name(), "friend_ids");
    assert_eq!(RelationList::PendingIncoming.field_name(), "pending_incoming_friend_ids");
    assert_eq!(RelationList::PendingOutgoing.field_name(), "pending_outgoing_friend_ids");
    assert_eq!(RelationList::Blocked.field_name(), "blocked_ids");
}

#[test]
fn friend_request_pushes_pending_on_both_sides() {
    let t = friend_request_transaction(CUR, OTHER).unwrap();
    assert_eq!(t.ensure_exists, vec![C, O]);
    assert_eq!((t.first.user_id, t.first.other), (O, C));
    assert_eq!(t.first.push, Some(RelationList::PendingIncoming));
    assert!(t.first.pull.is_empty());
    assert_eq!((t.second.user_id, t.second.other), (C, O));
    assert_eq!(t.second.push, Some(RelationList::PendingOutgoing));
    assert!(t.second.pull.is_empty());
    assert_eq!(t.on_type, OnType::RelationFriend);
}

#[test]
fn block_clears_friend_lists_on_both_sides() {
    let t = block_transaction(CUR, OTHER).unwrap();
    let lists =
        vec![RelationList::Friends, RelationList::PendingIncoming, RelationList::PendingOutgoing];
    assert_eq!(t.ensure_exists, vec![C, O]);
    assert_eq!(t.first.user_id, O);
    assert_eq!(t.first.push, None);
    assert_eq!(t.first.pull, lists);
    assert_eq!(t.second.user_id, C);
    assert_eq!(t.second.push, Some(RelationList::Blocked));
    assert_eq!(t.second.pull, lists);
    assert_eq!(t.on_type, OnType::RelationBlocked);
}

#[test]
fn confirm_moves_requests_to_friends() {
    let t = confirm_friend_transaction(CUR, OTHER).unwrap();
    assert!(t.ensure_exists.is_empty());
    assert_eq!(t.first.user_id, O);
    assert_eq!(t.first.push, Some(RelationList::Friends));
    assert_eq!(t.first.pull, vec![RelationList::PendingOutgoing]);
    assert_eq!(t.second.user_id, C);
    assert_eq!(t.second.push, Some(RelationList::Friends));
    assert_eq!(t.second.pull, vec![RelationList::PendingIncoming]);
}

#[test]
fn removals_only_pull() {
    let u = remove_friend_update(CUR, OTHER).unwrap();
    assert_eq!((u.user_id, u.other, u.push), (C, O, None));
    assert_eq!(u.pull, vec![RelationList::Friends, RelationList::PendingOutgoing]);
    let u = remove_blocked_update(CUR, OTHER).unwrap();
    assert_eq!(u.pull, vec![RelationList::Blocked]);
    assert!(remove_friend_update("x", OTHER).is_err());
}

#[test]
fn friendships_exist_answers_as_written() {
    let mut rel = MongolRelation::new(C);
    // no document: true only for an empty list
    assert!(friendships_exist(None, &[]));
    assert!(!friendships_exist(None, &[O]));
    // no friends at all: false
    assert!(!friendships_exist(Some(&rel), &[O]));
    rel.friend_ids.push(O);
    // every friend is among the others: false
    assert!(!friendships_exist(Some(&rel), &[O]));
    // a friend who is not among the others: true
    assert!(friendships_exist(Some(&rel), &[C]));
}

#[test]
fn contains_id_finds_ids() {
    assert!(contains_id(&[C, O], O));
    assert!(!contains_id(&[C], O));
    assert!(!contains_id(&[], O));
}
