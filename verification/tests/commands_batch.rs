use engagement::commands::delete_cleanup_commands;
use engagement::commands::toggle_hate_commands;
use engagement::commands::toggle_like_commands;
use engagement::commands::CacheCmd;
use engagement::commands::CacheKey;
use engagement::commands::KeyKind;
use engagement::errors::EngageError;
use engagement::store::CacheStore;

#[test]
fn like_batch_is_set_add_with_counter_incr() {
    let cmds = toggle_like_commands(12, 34, true, false).unwrap();
    assert_eq!(
        cmds,
        vec![
            CacheCmd::SetAdd(CacheKey { post_id: 12, kind: KeyKind::Likes }, 34),
            CacheCmd::Incr(CacheKey { post_id: 12, kind: KeyKind::LikeCount }),
        ]
    );
}

#[test]
fn unlike_batch_is_set_rem_with_counter_decr() {
    let cmds = toggle_like_commands(12, 34, false, true).unwrap();
    assert_eq!(
        cmds,
        vec![
            CacheCmd::SetRem(CacheKey { post_id: 12, kind: KeyKind::Likes }, 34),
            CacheCmd::Decr(CacheKey { post_id: 12, kind: KeyKind::LikeCount }),
        ]
    );
}

#[test]
fn toggle_in_held_state_yields_no_commands() {
    assert_eq!(toggle_like_commands(12, 34, true, true), Err(EngageError::AlreadyInState));
    assert_eq!(toggle_like_commands(12, 34, false, false), Err(EngageError::AlreadyInState));
    assert_eq!(toggle_hate_commands(12, 34, true, true), Err(EngageError::AlreadyInState));
}

#[test]
fn dislike_batch_addresses_the_hate_slots() {
    let cmds = toggle_hate_commands(5, 6, true, false).unwrap();
    assert_eq!(
        cmds,
        vec![
            CacheCmd::SetAdd(CacheKey { post_id: 5, kind: KeyKind::Hates }, 6),
            CacheCmd::Incr(CacheKey { post_id: 5, kind: KeyKind::HateCount }),
        ]
    );
}

#[test]
fn comment_cleanup_ends_with_the_parent_decrement() {
    let cmds = delete_cleanup_commands(40, Some(30));
    assert_eq!(
        cmds,
        vec![
            CacheCmd::Del(CacheKey { post_id: 40, kind: KeyKind::Likes }),
            CacheCmd::Del(CacheKey { post_id: 40, kind: KeyKind::LikeCount }),
            CacheCmd::Del(CacheKey { post_id: 40, kind: KeyKind::Hates }),
            CacheCmd::Del(CacheKey { post_id: 40, kind: KeyKind::HateCount }),
            CacheCmd::Decr(CacheKey { post_id: 30, kind: KeyKind::CommentsCount }),
        ]
    );
}

#[test]
fn top_level_cleanup_touches_no_other_post() {
    let cmds = delete_cleanup_commands(40, None);
    assert_eq!(cmds.len(), 4);
    let mut i = 0;
    while i < cmds.len() {
        match cmds[i] {
            CacheCmd::Del(k) => assert_eq!(k.post_id, 40),
            _ => panic!("cleanup of a top-level post is deletions only"),
        }
        i += 1;
    }
}

#[test]
fn keys_of_different_posts_differ() {
    assert_ne!(CacheKey::post_likes(1), CacheKey::post_likes(2));
    assert_ne!(CacheKey::post_likes(1), CacheKey::post_hates(1));
    assert_ne!(CacheKey::post_like_count(1), CacheKey::post_comments_count(1));
}

#[test]
fn applying_a_like_batch_matches_the_direct_toggle() {
    let mut store = CacheStore::new();
    let cmds = toggle_like_commands(12, 34, true, false).unwrap();
    store.apply(&cmds[0]);
    store.apply(&cmds[1]);
    assert!(store.set_contains(&CacheKey::post_likes(12), 34));
    assert_eq!(store.counter_get(&CacheKey::post_like_count(12)), 1);
    assert_eq!(store.counter_get(&CacheKey::post_hate_count(12)), 0);
}

#[test]
fn applying_del_resets_one_slot_only() {
    let mut store = CacheStore::new();
    store.set_add(&CacheKey::post_likes(3), 1);
    store.counter_incr(&CacheKey::post_like_count(3));
    store.counter_incr(&CacheKey::post_comments_count(3));
    store.apply(&CacheCmd::Del(CacheKey::post_likes(3)));
    assert!(!store.set_contains(&CacheKey::post_likes(3), 1));
    assert_eq!(store.counter_get(&CacheKey::post_like_count(3)), 1);
    assert_eq!(store.counter_get(&CacheKey::post_comments_count(3)), 1);
}
