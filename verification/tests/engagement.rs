use engagement::commands::CacheKey;
use engagement::errors::EngageError;
use engagement::idgen::IdGenerator;
use engagement::post::cancel_hate;
use engagement::post::cancel_like;
use engagement::post::comment;
use engagement::post::delete;
use engagement::post::hate;
use engagement::post::like;
use engagement::post::toggle_dislike;
use engagement::post::toggle_like;
use engagement::post::DeleteOutcome;
use engagement::store::CacheStore;

fn like_count(store: &CacheStore, post_id: i64) -> i64 {
    store.counter_get(&CacheKey::post_like_count(post_id))
}

fn hate_count(store: &CacheStore, post_id: i64) -> i64 {
    store.counter_get(&CacheKey::post_hate_count(post_id))
}

fn comments_count(store: &CacheStore, post_id: i64) -> i64 {
    store.counter_get(&CacheKey::post_comments_count(post_id))
}

fn likes(store: &CacheStore, post_id: i64, user_id: i64) -> bool {
    store.set_contains(&CacheKey::post_likes(post_id), user_id)
}

fn hates(store: &CacheStore, post_id: i64, user_id: i64) -> bool {
    store.set_contains(&CacheKey::post_hates(post_id), user_id)
}

#[test]
fn scenario_two_users_like_then_one_withdraws() {
    let mut store = CacheStore::new();
    let p: i64 = 42;
    assert_eq!(like_count(&store, p), 0);
    assert!(!likes(&store, p, 1));

    assert_eq!(like(&mut store, p, 1), Ok(()));
    assert!(likes(&store, p, 1));
    assert_eq!(like_count(&store, p), 1);

    assert_eq!(like(&mut store, p, 2), Ok(()));
    assert!(likes(&store, p, 1));
    assert!(likes(&store, p, 2));
    assert_eq!(like_count(&store, p), 2);

    assert_eq!(cancel_like(&mut store, p, 1), Ok(()));
    assert!(!likes(&store, p, 1));
    assert!(likes(&store, p, 2));
    assert_eq!(like_count(&store, p), 1);

    assert_eq!(cancel_like(&mut store, p, 1), Err(EngageError::AlreadyInState));
    assert_eq!(like_count(&store, p), 1);
}

#[test]
fn double_like_fails_and_leaves_counter() {
    let mut store = CacheStore::new();
    assert_eq!(like(&mut store, 7, 10), Ok(()));
    assert_eq!(like(&mut store, 7, 10), Err(EngageError::AlreadyInState));
    assert_eq!(like_count(&store, 7), 1);
    assert!(likes(&store, 7, 10));
}

#[test]
fn like_then_unlike_nets_zero() {
    let mut store = CacheStore::new();
    assert_eq!(like(&mut store, 3, 5), Ok(()));
    assert_eq!(cancel_like(&mut store, 3, 5), Ok(()));
    assert_eq!(like_count(&store, 3), 0);
    assert!(!likes(&store, 3, 5));
}

#[test]
fn unlike_without_like_is_refused() {
    let mut store = CacheStore::new();
    assert_eq!(cancel_like(&mut store, 3, 5), Err(EngageError::AlreadyInState));
    assert_eq!(like_count(&store, 3), 0);
}

#[test]
fn dislike_toggles_mirror_likes() {
    let mut store = CacheStore::new();
    assert_eq!(hate(&mut store, 9, 4), Ok(()));
    assert!(hates(&store, 9, 4));
    assert_eq!(hate_count(&store, 9), 1);
    assert_eq!(hate(&mut store, 9, 4), Err(EngageError::AlreadyInState));
    assert_eq!(cancel_hate(&mut store, 9, 4), Ok(()));
    assert_eq!(hate_count(&store, 9), 0);
    assert!(!hates(&store, 9, 4));
    assert_eq!(cancel_hate(&mut store, 9, 4), Err(EngageError::AlreadyInState));
}

#[test]
fn likes_and_dislikes_do_not_interfere() {
    let mut store = CacheStore::new();
    assert_eq!(like(&mut store, 11, 1), Ok(()));
    assert_eq!(hate(&mut store, 11, 1), Ok(()));
    assert_eq!(like_count(&store, 11), 1);
    assert_eq!(hate_count(&store, 11), 1);
    assert_eq!(cancel_like(&mut store, 11, 1), Ok(()));
    assert!(hates(&store, 11, 1));
    assert_eq!(hate_count(&store, 11), 1);
}

#[test]
fn toggles_on_one_post_leave_another_alone() {
    let mut store = CacheStore::new();
    assert_eq!(toggle_like(&mut store, 1, 8, true), Ok(()));
    assert_eq!(toggle_dislike(&mut store, 2, 8, true), Ok(()));
    assert_eq!(like_count(&store, 1), 1);
    assert_eq!(like_count(&store, 2), 0);
    assert_eq!(hate_count(&store, 1), 0);
    assert_eq!(hate_count(&store, 2), 1);
}

#[test]
fn delete_of_comment_decrements_parent_once() {
    let mut store = CacheStore::new();
    let parent: i64 = 100;
    let mut gen = IdGenerator::new(1, 1);
    let c1 = comment(&mut store, &mut gen, 10, parent).unwrap();
    let _c2 = comment(&mut store, &mut gen, 10, parent).unwrap();
    assert_eq!(comments_count(&store, parent), 2);

    // the deleted comment has reactions of its own; they are dropped too
    assert_eq!(like(&mut store, c1, 55), Ok(()));
    assert_eq!(hate(&mut store, c1, 56), Ok(()));

    assert_eq!(delete(&mut store, c1, DeleteOutcome::Removed(Some(parent))), Ok(()));
    assert_eq!(comments_count(&store, parent), 1);
    assert_eq!(like_count(&store, c1), 0);
    assert_eq!(hate_count(&store, c1), 0);
    assert!(!likes(&store, c1, 55));
    assert!(!hates(&store, c1, 56));
}

#[test]
fn delete_without_row_is_not_found_and_changes_nothing() {
    let mut store = CacheStore::new();
    assert_eq!(like(&mut store, 5, 1), Ok(()));
    assert_eq!(delete(&mut store, 5, DeleteOutcome::NoRow), Err(EngageError::NotFound));
    assert_eq!(like_count(&store, 5), 1);
    assert!(likes(&store, 5, 1));
}

#[test]
fn delete_of_top_level_post_touches_no_parent() {
    let mut store = CacheStore::new();
    let mut gen = IdGenerator::new(1, 1);
    let p: i64 = 70;
    let _ = comment(&mut store, &mut gen, 10, p).unwrap();
    assert_eq!(comments_count(&store, p), 1);
    assert_eq!(like(&mut store, p, 1), Ok(()));
    assert_eq!(delete(&mut store, p, DeleteOutcome::Removed(None)), Ok(()));
    // the post's own comment counter is not part of the cascade
    assert_eq!(comments_count(&store, p), 1);
    assert_eq!(like_count(&store, p), 0);
}

#[test]
fn comment_allocates_increasing_ids_and_counts() {
    let mut store = CacheStore::new();
    let mut gen = IdGenerator::new(2, 3);
    let id1 = comment(&mut store, &mut gen, 1000, 77).unwrap();
    let id2 = comment(&mut store, &mut gen, 1000, 77).unwrap();
    assert!(id2 > id1);
    assert_eq!(comments_count(&store, 77), 2);
}
