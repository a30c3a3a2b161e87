use axolotl_client_api::relation::{plan, Plan, Relation, RelationError, RelationNotice, RelationStore};

const A: u128 = 0x1111_2222_3333_4444_5555_6666_7777_8888;
const B: u128 = 0x9999_aaaa_bbbb_cccc_dddd_eeee_ffff_0000;
const C: u128 = 3;

#[test]
fn fresh_store_relates_nobody() {
    let store = RelationStore::new();
    assert_eq!(store.get(A, B), Relation::Unrelated);
    assert_eq!(store.get(B, A), Relation::Unrelated);
}

#[test]
fn self_relation_is_rejected() {
    let mut store = RelationStore::new();
    for desired in [Relation::Blocked, Relation::Unrelated, Relation::Request, Relation::Friend] {
        assert_eq!(store.set_relation(A, A, desired, true), Err(RelationError::SelfRelation));
    }
    assert_eq!(store.get(A, A), Relation::Unrelated);
}

#[test]
fn request_to_stranger_is_stored_and_announced() {
    let mut store = RelationStore::new();
    assert_eq!(
        store.set_relation(A, B, Relation::Request, true),
        Ok(Some(RelationNotice::FriendRequest))
    );
    assert_eq!(store.get(A, B), Relation::Request);
    assert_eq!(store.get(B, A), Relation::Unrelated);
}

#[test]
fn request_to_missing_user_is_not_found() {
    let mut store = RelationStore::new();
    assert_eq!(store.set_relation(A, B, Relation::Request, false), Err(RelationError::NotFound));
    assert_eq!(store.get(A, B), Relation::Unrelated);
}

#[test]
fn crossing_requests_make_friends() {
    let mut store = RelationStore::new();
    assert_eq!(
        store.set_relation(A, B, Relation::Request, true),
        Ok(Some(RelationNotice::FriendRequest))
    );
    assert_eq!(
        store.set_relation(B, A, Relation::Request, true),
        Ok(Some(RelationNotice::FriendRequestAccept))
    );
    assert_eq!(store.get(A, B), Relation::Friend);
    assert_eq!(store.get(B, A), Relation::Friend);
}

#[test]
fn crossing_requests_make_friends_in_the_other_order() {
    let mut store = RelationStore::new();
    assert_eq!(
        store.set_relation(B, A, Relation::Request, true),
        Ok(Some(RelationNotice::FriendRequest))
    );
    assert_eq!(
        store.set_relation(A, B, Relation::Request, true),
        Ok(Some(RelationNotice::FriendRequestAccept))
    );
    assert_eq!(store.get(A, B), Relation::Friend);
    assert_eq!(store.get(B, A), Relation::Friend);
}

#[test]
fn friend_accepts_a_request() {
    let mut store = RelationStore::new();
    store.set_relation(A, B, Relation::Request, true).unwrap();
    assert_eq!(
        store.set_relation(B, A, Relation::Friend, true),
        Ok(Some(RelationNotice::FriendRequestAccept))
    );
    assert_eq!(store.get(A, B), Relation::Friend);
    assert_eq!(store.get(B, A), Relation::Friend);
}

#[test]
fn friend_toward_a_stranger_is_forbidden() {
    let mut store = RelationStore::new();
    assert_eq!(store.set_relation(A, B, Relation::Friend, true), Err(RelationError::Forbidden));
    assert_eq!(store.get(A, B), Relation::Unrelated);
}

#[test]
fn blocked_user_cannot_befriend() {
    let mut store = RelationStore::new();
    assert_eq!(store.set_relation(A, B, Relation::Blocked, true), Ok(None));
    assert_eq!(store.set_relation(B, A, Relation::Friend, true), Err(RelationError::Forbidden));
    assert_eq!(store.set_relation(B, A, Relation::Request, true), Err(RelationError::Forbidden));
    assert_eq!(store.set_relation(B, A, Relation::Unrelated, true), Err(RelationError::Forbidden));
    assert_eq!(store.get(A, B), Relation::Blocked);
    assert_eq!(store.get(B, A), Relation::Unrelated);
}

#[test]
fn blocking_clears_what_the_other_side_held() {
    let mut store = RelationStore::new();
    store.set_relation(A, B, Relation::Request, true).unwrap();
    store.set_relation(B, A, Relation::Request, true).unwrap();
    assert_eq!(store.set_relation(A, B, Relation::Blocked, true), Ok(None));
    assert_eq!(store.get(A, B), Relation::Blocked);
    assert_eq!(store.get(B, A), Relation::Unrelated);

    let mut store = RelationStore::new();
    store.set_relation(B, A, Relation::Request, true).unwrap();
    assert_eq!(store.set_relation(A, B, Relation::Blocked, true), Ok(None));
    assert_eq!(store.get(B, A), Relation::Unrelated);
}

#[test]
fn mutual_blocks_stand_side_by_side() {
    let mut store = RelationStore::new();
    assert_eq!(store.set_relation(A, B, Relation::Blocked, true), Ok(None));
    assert_eq!(store.set_relation(B, A, Relation::Blocked, true), Ok(None));
    assert_eq!(store.get(A, B), Relation::Blocked);
    assert_eq!(store.get(B, A), Relation::Blocked);
}

#[test]
fn turning_down_a_request_tells_the_sender() {
    let mut store = RelationStore::new();
    store.set_relation(A, B, Relation::Request, true).unwrap();
    assert_eq!(
        store.set_relation(B, A, Relation::Unrelated, true),
        Ok(Some(RelationNotice::FriendRequestDeny))
    );
    assert_eq!(store.get(A, B), Relation::Unrelated);
    assert_eq!(store.get(B, A), Relation::Unrelated);
}

#[test]
fn withdrawing_an_own_request_is_silent() {
    let mut store = RelationStore::new();
    store.set_relation(A, B, Relation::Request, true).unwrap();
    assert_eq!(store.set_relation(A, B, Relation::Unrelated, true), Ok(None));
    assert_eq!(store.get(A, B), Relation::Unrelated);
}

#[test]
fn unfriending_removes_both_directions() {
    let mut store = RelationStore::new();
    store.set_relation(A, B, Relation::Request, true).unwrap();
    store.set_relation(B, A, Relation::Friend, true).unwrap();
    assert_eq!(store.set_relation(A, B, Relation::Unrelated, true), Ok(None));
    assert_eq!(store.get(A, B), Relation::Unrelated);
    assert_eq!(store.get(B, A), Relation::Unrelated);
}

#[test]
fn repeating_a_change_changes_nothing() {
    let mut store = RelationStore::new();
    store.set_relation(A, B, Relation::Request, true).unwrap();
    assert_eq!(
        store.set_relation(B, A, Relation::Request, true),
        Ok(Some(RelationNotice::FriendRequestAccept))
    );
    assert_eq!(store.set_relation(B, A, Relation::Request, true), Ok(None));
    assert_eq!(store.set_relation(B, A, Relation::Friend, true), Ok(None));
    assert_eq!(store.get(A, B), Relation::Friend);
    assert_eq!(store.get(B, A), Relation::Friend);
    assert_eq!(store.set_relation(A, C, Relation::Blocked, true), Ok(None));
    assert_eq!(store.set_relation(A, C, Relation::Blocked, true), Ok(None));
    assert_eq!(store.get(A, C), Relation::Blocked);
}

#[test]
fn pairs_are_stored_independently() {
    let mut store = RelationStore::new();
    store.set_relation(A, B, Relation::Request, true).unwrap();
    store.set_relation(A, C, Relation::Blocked, true).unwrap();
    store.set_relation(C, B, Relation::Request, true).unwrap();
    assert_eq!(store.get(A, B), Relation::Request);
    assert_eq!(store.get(A, C), Relation::Blocked);
    assert_eq!(store.get(C, B), Relation::Request);
    assert_eq!(store.get(B, C), Relation::Unrelated);
    assert_eq!(store.get(C, A), Relation::Unrelated);
}

#[test]
fn plan_follows_the_table() {
    assert_eq!(
        plan(Relation::Blocked, Relation::Friend, true),
        Ok(Plan { forward: Some(Relation::Blocked), reverse: Some(Relation::Unrelated), notice: None })
    );
    assert_eq!(
        plan(Relation::Blocked, Relation::Blocked, true),
        Ok(Plan { forward: Some(Relation::Blocked), reverse: None, notice: None })
    );
    assert_eq!(
        plan(Relation::Request, Relation::Friend, false),
        Ok(Plan { forward: None, reverse: None, notice: None })
    );
    assert_eq!(plan(Relation::Friend, Relation::Blocked, true), Err(RelationError::Forbidden));
    assert_eq!(plan(Relation::Request, Relation::Unrelated, false), Err(RelationError::NotFound));
}

#[test]
fn notices_name_their_target() {
    assert_eq!(RelationNotice::FriendRequest.target(), "friend_request");
    assert_eq!(RelationNotice::FriendRequestAccept.target(), "friend_request_accept");
    assert_eq!(RelationNotice::FriendRequestDeny.target(), "friend_request_deny");
}

#[test]
fn request_and_friend_exceed_none() {
    assert!(Relation::Request.exceeds_none());
    assert!(Relation::Friend.exceeds_none());
    assert!(!Relation::Unrelated.exceeds_none());
    assert!(!Relation::Blocked.exceeds_none());
}
