use vstd::prelude::*;

use crate::commands::CacheKey;
use crate::store::CacheStore;

verus! {

/// A post read model: the row the relational store returned, enriched with
/// the cache's counters and the requesting viewer's own reaction membership.
pub struct PostExtends {
    pub id: i64,
    pub author_id: i64,
    pub content: String,
    /// Parent post id when this record is a comment.
    pub extends_id: Option<i64>,
    pub like_count: i64,
    pub dislike_count: i64,
    pub comment_count: i64,
    pub liked_by_viewer: bool,
    pub disliked_by_viewer: bool,
}

/// A post together with a page of its comments.
pub struct PostExtendsWithComment {
    pub post: PostExtends,
    pub comments: Vec<PostExtends>,
}

impl PostExtendsWithComment {
    /// How many comments are loaded alongside a post at most.
    pub fn max_comments() -> (n: u64)
        ensures
            n == 20,
    {
        20
    }

    pub fn from_post_ext(post: PostExtends) -> (r: Self)
        ensures
            r.post == post,
            r.comments@ == Seq::<PostExtends>::empty(),
    {
        PostExtendsWithComment { post, comments: Vec::new() }
    }
}

/// What one remote cache read handed back for a post, each slot absent when
/// its lookup failed or the entry was missing.
pub struct CacheLookup {
    pub like_count: Option<i64>,
    pub dislike_count: Option<i64>,
    pub comment_count: Option<i64>,
    pub liked: Option<bool>,
    pub disliked: Option<bool>,
}

/// The record `p` is `orig` enriched with the cache's view of it: counters
/// from the cache, membership for the given viewer, false membership and no
/// queries for an anonymous read.
pub open spec fn synced_record(
    p: PostExtends,
    orig: PostExtends,
    store: CacheStore,
    viewer: Option<i64>,
) -> bool {
    &&& p.id == orig.id
    &&& p.author_id == orig.author_id
    &&& p.content == orig.content
    &&& p.extends_id == orig.extends_id
    &&& p.like_count as int == store.like_count(orig.id)
    &&& p.dislike_count as int == store.dislike_count(orig.id)
    &&& p.comment_count as int == store.comment_count(orig.id)
    &&& p.liked_by_viewer == (viewer matches Some(u) && store.like_set(orig.id).contains(u))
    &&& p.disliked_by_viewer == (viewer matches Some(u) && store.dislike_set(orig.id).contains(u))
}

/// Synchronizes one record against the cache: populates the three counters
/// and, when a viewer is given, the viewer's membership booleans. An
/// anonymous read asks no membership question and reports no membership.
pub fn sync_post(store: &CacheStore, post: &mut PostExtends, viewer: Option<i64>)
    ensures
        synced_record(*final(post), *old(post), *store, viewer),
{
    let pid = post.id;
    post.like_count = store.counter_get(&CacheKey::post_like_count(pid));
    post.dislike_count = store.counter_get(&CacheKey::post_hate_count(pid));
    post.comment_count = store.counter_get(&CacheKey::post_comments_count(pid));
    match viewer {
        Some(user_id) => {
            post.liked_by_viewer = store.set_contains(&CacheKey::post_likes(pid), user_id);
            post.disliked_by_viewer = store.set_contains(&CacheKey::post_hates(pid), user_id);
        },
        None => {
            post.liked_by_viewer = false;
            post.disliked_by_viewer = false;
        },
    }
}

/// Enriches one record from a remote read that may have partly failed: a
/// missing counter degrades to zero and missing membership to false, so one
/// item's cache failure never costs the whole response.
pub fn enrich_post(post: &mut PostExtends, lookup: &CacheLookup, viewer_present: bool)
    ensures
        final(post).id == old(post).id,
        final(post).author_id == old(post).author_id,
        final(post).content == old(post).content,
        final(post).extends_id == old(post).extends_id,
        final(post).like_count == (match lookup.like_count {
            Some(c) => c,
            None => 0,
        }),
        final(post).dislike_count == (match lookup.dislike_count {
            Some(c) => c,
            None => 0,
        }),
        final(post).comment_count == (match lookup.comment_count {
            Some(c) => c,
            None => 0,
        }),
        final(post).liked_by_viewer == (viewer_present && lookup.liked == Some(true)),
        final(post).disliked_by_viewer == (viewer_present && lookup.disliked == Some(true)),
{
    post.like_count = match lookup.like_count {
        Some(c) => c,
        None => 0,
    };
    post.dislike_count = match lookup.dislike_count {
        Some(c) => c,
        None => 0,
    };
    post.comment_count = match lookup.comment_count {
        Some(c) => c,
        None => 0,
    };
    if viewer_present {
        post.liked_by_viewer = match lookup.liked {
            Some(b) => b,
            None => false,
        };
        post.disliked_by_viewer = match lookup.disliked {
            Some(b) => b,
            None => false,
        };
    } else {
        post.liked_by_viewer = false;
        post.disliked_by_viewer = false;
    }
}

/// Synchronizes a whole listing, each record independently; every record is
/// completed, none aborts the others.
pub fn sync_posts(store: &CacheStore, posts: &mut Vec<PostExtends>, viewer: Option<i64>)
    ensures
        final(posts)@.len() == old(posts)@.len(),
        forall|j: int|
            0 <= j < old(posts)@.len() ==> synced_record(
                #[trigger] final(posts)@[j],
                old(posts)@[j],
                *store,
                viewer,
            ),
{
    let ghost orig = posts@;
    let n = posts.len();
    let mut i: usize = 0;
    while i < n
        invariant
            n == orig.len(),
            posts@.len() == n,
            i <= n,
            forall|j: int|
                0 <= j < i ==> synced_record(#[trigger] posts@[j], orig[j], *store, viewer),
            forall|j: int| i <= j < n ==> #[trigger] posts@[j] == orig[j],
        decreases n - i,
    {
        let ghost before = posts@;
        let mut p = posts.remove(i);
        sync_post(store, &mut p, viewer);
        posts.insert(i, p);
        proof {
            assert(posts@.len() == n);
            assert forall|j: int| 0 <= j < n && j != i implies posts@[j] == before[j] by {
                if j < i {
                    assert(before.remove(i as int)[j] == before[j]);
                } else {
                    assert(before.remove(i as int)[j - 1] == before[j]);
                }
            }
            assert(posts@[i as int] == p);
        }
        i = i + 1;
    }
}

/// Assembles the single-post read: the post synchronized against the cache,
/// followed by its loaded comments, each synchronized independently.
pub fn get_one(
    store: &CacheStore,
    post: PostExtends,
    comments: Vec<PostExtends>,
    viewer: Option<i64>,
) -> (r: PostExtendsWithComment)
    ensures
        synced_record(r.post, post, *store, viewer),
        r.comments@.len() == comments@.len(),
        forall|j: int|
            0 <= j < comments@.len() ==> synced_record(
                #[trigger] r.comments@[j],
                comments@[j],
                *store,
                viewer,
            ),
{
    let mut post = post;
    sync_post(store, &mut post, viewer);
    let mut comments = comments;
    sync_posts(store, &mut comments, viewer);
    let mut data = PostExtendsWithComment::from_post_ext(post);
    let ghost synced = comments@;
    data.comments.append(&mut comments);
    proof {
        assert(data.comments@ =~= synced);
    }
    data
}

} // verus!
