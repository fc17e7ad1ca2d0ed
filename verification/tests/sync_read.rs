use engagement::post::hate;
use engagement::post::like;
use engagement::post::page_offset;
use engagement::store::CacheStore;
use engagement::sync::enrich_post;
use engagement::sync::get_one;
use engagement::sync::sync_post;
use engagement::sync::sync_posts;
use engagement::sync::CacheLookup;
use engagement::sync::PostExtends;
use engagement::sync::PostExtendsWithComment;

fn fresh_record(id: i64, author_id: i64, extends_id: Option<i64>) -> PostExtends {
    PostExtends {
        id,
        author_id,
        content: String::from("hello"),
        extends_id,
        like_count: -1,
        dislike_count: -1,
        comment_count: -1,
        liked_by_viewer: true,
        disliked_by_viewer: true,
    }
}

#[test]
fn sync_fills_counts_and_viewer_membership() {
    let mut store = CacheStore::new();
    assert_eq!(like(&mut store, 8, 21), Ok(()));
    assert_eq!(like(&mut store, 8, 22), Ok(()));
    assert_eq!(hate(&mut store, 8, 23), Ok(()));

    let mut rec = fresh_record(8, 1, None);
    sync_post(&store, &mut rec, Some(21));
    assert_eq!(rec.like_count, 2);
    assert_eq!(rec.dislike_count, 1);
    assert_eq!(rec.comment_count, 0);
    assert!(rec.liked_by_viewer);
    assert!(!rec.disliked_by_viewer);
    assert_eq!(rec.content, "hello");
    assert_eq!(rec.id, 8);
}

#[test]
fn anonymous_sync_reports_no_membership() {
    let mut store = CacheStore::new();
    assert_eq!(like(&mut store, 8, 21), Ok(()));
    let mut rec = fresh_record(8, 1, None);
    sync_post(&store, &mut rec, None);
    assert_eq!(rec.like_count, 1);
    assert!(!rec.liked_by_viewer);
    assert!(!rec.disliked_by_viewer);
}

#[test]
fn sync_of_unknown_post_reads_all_zero() {
    let store = CacheStore::new();
    let mut rec = fresh_record(999, 1, None);
    sync_post(&store, &mut rec, Some(5));
    assert_eq!(rec.like_count, 0);
    assert_eq!(rec.dislike_count, 0);
    assert_eq!(rec.comment_count, 0);
    assert!(!rec.liked_by_viewer);
}

#[test]
fn failed_lookups_degrade_to_zero() {
    let mut rec = fresh_record(4, 1, None);
    let lookup = CacheLookup {
        like_count: None,
        dislike_count: Some(3),
        comment_count: None,
        liked: None,
        disliked: Some(true),
    };
    enrich_post(&mut rec, &lookup, true);
    assert_eq!(rec.like_count, 0);
    assert_eq!(rec.dislike_count, 3);
    assert_eq!(rec.comment_count, 0);
    assert!(!rec.liked_by_viewer);
    assert!(rec.disliked_by_viewer);
}

#[test]
fn enrich_without_viewer_reports_no_membership() {
    let mut rec = fresh_record(4, 1, None);
    let lookup = CacheLookup {
        like_count: Some(1),
        dislike_count: Some(1),
        comment_count: Some(1),
        liked: Some(true),
        disliked: Some(true),
    };
    enrich_post(&mut rec, &lookup, false);
    assert!(!rec.liked_by_viewer);
    assert!(!rec.disliked_by_viewer);
}

#[test]
fn listing_sync_completes_every_record() {
    let mut store = CacheStore::new();
    assert_eq!(like(&mut store, 1, 9), Ok(()));
    assert_eq!(like(&mut store, 2, 9), Ok(()));
    assert_eq!(like(&mut store, 2, 10), Ok(()));

    let mut posts = vec![
        fresh_record(1, 5, None),
        fresh_record(2, 6, None),
        fresh_record(3, 7, None),
    ];
    sync_posts(&store, &mut posts, Some(9));
    assert_eq!(posts.len(), 3);
    assert_eq!(posts[0].like_count, 1);
    assert_eq!(posts[1].like_count, 2);
    assert_eq!(posts[2].like_count, 0);
    assert!(posts[0].liked_by_viewer);
    assert!(posts[1].liked_by_viewer);
    assert!(!posts[2].liked_by_viewer);
    assert_eq!(posts[1].author_id, 6);
}

#[test]
fn single_post_read_assembles_post_and_comments() {
    let mut store = CacheStore::new();
    assert_eq!(like(&mut store, 50, 1), Ok(()));
    assert_eq!(like(&mut store, 51, 1), Ok(()));

    let post = fresh_record(50, 2, None);
    let comments = vec![fresh_record(51, 3, Some(50)), fresh_record(52, 4, Some(50))];
    let data = get_one(&store, post, comments, Some(1));
    assert_eq!(data.post.id, 50);
    assert_eq!(data.post.like_count, 1);
    assert!(data.post.liked_by_viewer);
    assert_eq!(data.comments.len(), 2);
    assert_eq!(data.comments[0].id, 51);
    assert_eq!(data.comments[0].like_count, 1);
    assert_eq!(data.comments[1].like_count, 0);
    assert_eq!(data.comments[1].extends_id, Some(50));
}

#[test]
fn comment_page_size_is_fixed() {
    assert_eq!(PostExtendsWithComment::max_comments(), 20);
}

#[test]
fn page_offset_matches_the_listing_queries() {
    assert_eq!(page_offset(1, 10), 0);
    assert_eq!(page_offset(3, 10), 20);
    assert_eq!(page_offset(2, 0), 0);
}
