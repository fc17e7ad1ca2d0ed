use vstd::prelude::*;

use crate::errors::EngageError;
use crate::model::{dislike_toggle_next, like_toggle_next, EngState};

verus! {

/// Which cache slot of a post a key addresses.
#[derive(Clone, Copy, Debug, PartialEq, Eq, Structural)]
pub enum KeyKind {
    Likes,
    LikeCount,
    Hates,
    HateCount,
    CommentsCount,
}

/// A cache key, derived deterministically from the post id and the slot
/// kind alone: no key ever addresses two posts.
#[derive(Clone, Copy, Debug, PartialEq, Eq, Structural)]
pub struct CacheKey {
    pub post_id: i64,
    pub kind: KeyKind,
}

impl CacheKey {
    /// Key of the post's set of likers.
    pub fn post_likes(post_id: i64) -> (k: CacheKey)
        ensures
            k == (CacheKey { post_id, kind: KeyKind::Likes }),
    {
        CacheKey { post_id, kind: KeyKind::Likes }
    }

    /// Key of the post's cached like cardinality.
    pub fn post_like_count(post_id: i64) -> (k: CacheKey)
        ensures
            k == (CacheKey { post_id, kind: KeyKind::LikeCount }),
    {
        CacheKey { post_id, kind: KeyKind::LikeCount }
    }

    /// Key of the post's set of dislikers.
    pub fn post_hates(post_id: i64) -> (k: CacheKey)
        ensures
            k == (CacheKey { post_id, kind: KeyKind::Hates }),
    {
        CacheKey { post_id, kind: KeyKind::Hates }
    }

    /// Key of the post's cached dislike cardinality.
    pub fn post_hate_count(post_id: i64) -> (k: CacheKey)
        ensures
            k == (CacheKey { post_id, kind: KeyKind::HateCount }),
    {
        CacheKey { post_id, kind: KeyKind::HateCount }
    }

    /// Key of the post's comment counter.
    pub fn post_comments_count(post_id: i64) -> (k: CacheKey)
        ensures
            k == (CacheKey { post_id, kind: KeyKind::CommentsCount }),
    {
        CacheKey { post_id, kind: KeyKind::CommentsCount }
    }
}

/// One primitive command of the cache store. A toggle issues its two
/// commands as one batched submission; a delete issues its cleanup commands
/// best-effort, each independent of the others.
#[derive(Clone, Copy, Debug, PartialEq, Eq, Structural)]
pub enum CacheCmd {
    /// Add a member to a reaction set.
    SetAdd(CacheKey, i64),
    /// Remove a member from a reaction set.
    SetRem(CacheKey, i64),
    /// Step a counter up by one.
    Incr(CacheKey),
    /// Step a counter down by one.
    Decr(CacheKey),
    /// Drop a slot entirely; it then reads as empty or zero.
    Del(CacheKey),
}

/// The meaning of one command for the state cached under post `p`. Commands
/// keyed to any other post leave `p`'s state untouched, and every command
/// touches exactly the one slot its key names.
pub open spec fn apply_cmd(s: EngState, cmd: CacheCmd, p: i64) -> EngState {
    match cmd {
        CacheCmd::SetAdd(k, u) => if k.post_id == p {
            match k.kind {
                KeyKind::Likes => EngState { likes: s.likes.insert(u), ..s },
                KeyKind::Hates => EngState { dislikes: s.dislikes.insert(u), ..s },
                _ => s,
            }
        } else {
            s
        },
        CacheCmd::SetRem(k, u) => if k.post_id == p {
            match k.kind {
                KeyKind::Likes => EngState { likes: s.likes.remove(u), ..s },
                KeyKind::Hates => EngState { dislikes: s.dislikes.remove(u), ..s },
                _ => s,
            }
        } else {
            s
        },
        CacheCmd::Incr(k) => if k.post_id == p {
            match k.kind {
                KeyKind::LikeCount => EngState { like_count: s.like_count + 1, ..s },
                KeyKind::HateCount => EngState { dislike_count: s.dislike_count + 1, ..s },
                KeyKind::CommentsCount => EngState { comment_count: s.comment_count + 1, ..s },
                _ => s,
            }
        } else {
            s
        },
        CacheCmd::Decr(k) => if k.post_id == p {
            match k.kind {
                KeyKind::LikeCount => EngState { like_count: s.like_count - 1, ..s },
                KeyKind::HateCount => EngState { dislike_count: s.dislike_count - 1, ..s },
                KeyKind::CommentsCount => EngState { comment_count: s.comment_count - 1, ..s },
                _ => s,
            }
        } else {
            s
        },
        CacheCmd::Del(k) => if k.post_id == p {
            match k.kind {
                KeyKind::Likes => EngState { likes: Set::empty(), ..s },
                KeyKind::LikeCount => EngState { like_count: 0, ..s },
                KeyKind::Hates => EngState { dislikes: Set::empty(), ..s },
                KeyKind::HateCount => EngState { dislike_count: 0, ..s },
                KeyKind::CommentsCount => EngState { comment_count: 0, ..s },
            }
        } else {
            s
        },
    }
}

/// The meaning of a command list for post `p`: the commands applied in order.
pub open spec fn apply_cmds(s: EngState, cmds: Seq<CacheCmd>, p: i64) -> EngState
    decreases cmds.len(),
{
    if cmds.len() == 0 {
        s
    } else {
        apply_cmds(apply_cmd(s, cmds[0], p), cmds.drop_first(), p)
    }
}

/// Applying a concatenation is applying the parts in turn.
pub proof fn lemma_apply_cmds_concat(s: EngState, a: Seq<CacheCmd>, b: Seq<CacheCmd>, p: i64)
    ensures
        apply_cmds(s, a + b, p) == apply_cmds(apply_cmds(s, a, p), b, p),
    decreases a.len(),
{
    if a.len() == 0 {
        assert(a + b =~= b);
    } else {
        assert((a + b).drop_first() =~= a.drop_first() + b);
        lemma_apply_cmds_concat(apply_cmd(s, a[0], p), a.drop_first(), b, p);
    }
}

/// The batched commands of a like-toggle: the set mutation together with the
/// matching counter step.
pub open spec fn like_toggle_cmds(post_id: i64, user_id: i64, enable: bool) -> Seq<CacheCmd> {
    if enable {
        seq![
            CacheCmd::SetAdd(CacheKey { post_id, kind: KeyKind::Likes }, user_id),
            CacheCmd::Incr(CacheKey { post_id, kind: KeyKind::LikeCount }),
        ]
    } else {
        seq![
            CacheCmd::SetRem(CacheKey { post_id, kind: KeyKind::Likes }, user_id),
            CacheCmd::Decr(CacheKey { post_id, kind: KeyKind::LikeCount }),
        ]
    }
}

/// The batched commands of a dislike-toggle.
pub open spec fn dislike_toggle_cmds(post_id: i64, user_id: i64, enable: bool) -> Seq<CacheCmd> {
    if enable {
        seq![
            CacheCmd::SetAdd(CacheKey { post_id, kind: KeyKind::Hates }, user_id),
            CacheCmd::Incr(CacheKey { post_id, kind: KeyKind::HateCount }),
        ]
    } else {
        seq![
            CacheCmd::SetRem(CacheKey { post_id, kind: KeyKind::Hates }, user_id),
            CacheCmd::Decr(CacheKey { post_id, kind: KeyKind::HateCount }),
        ]
    }
}

/// Decides a like-toggle from the membership the cache reported: refused as
/// already-in-state when the requested state already holds, otherwise the
/// exact command batch to submit.
pub fn toggle_like_commands(post_id: i64, user_id: i64, enable: bool, currently_member: bool) -> (r:
    Result<Vec<CacheCmd>, EngageError>)
    ensures
        currently_member == enable ==> r == Err::<Vec<CacheCmd>, EngageError>(
            EngageError::AlreadyInState,
        ),
        currently_member != enable ==> (r matches Ok(cmds) && cmds@ == like_toggle_cmds(
            post_id,
            user_id,
            enable,
        )),
{
    if currently_member == enable {
        return Err(EngageError::AlreadyInState);
    }
    let mut cmds: Vec<CacheCmd> = Vec::new();
    if enable {
        cmds.push(CacheCmd::SetAdd(CacheKey::post_likes(post_id), user_id));
        cmds.push(CacheCmd::Incr(CacheKey::post_like_count(post_id)));
    } else {
        cmds.push(CacheCmd::SetRem(CacheKey::post_likes(post_id), user_id));
        cmds.push(CacheCmd::Decr(CacheKey::post_like_count(post_id)));
    }
    proof {
        assert(cmds@ =~= like_toggle_cmds(post_id, user_id, enable));
    }
    Ok(cmds)
}

/// Decides a dislike-toggle from the membership the cache reported.
pub fn toggle_hate_commands(post_id: i64, user_id: i64, enable: bool, currently_member: bool) -> (r:
    Result<Vec<CacheCmd>, EngageError>)
    ensures
        currently_member == enable ==> r == Err::<Vec<CacheCmd>, EngageError>(
            EngageError::AlreadyInState,
        ),
        currently_member != enable ==> (r matches Ok(cmds) && cmds@ == dislike_toggle_cmds(
            post_id,
            user_id,
            enable,
        )),
{
    if currently_member == enable {
        return Err(EngageError::AlreadyInState);
    }
    let mut cmds: Vec<CacheCmd> = Vec::new();
    if enable {
        cmds.push(CacheCmd::SetAdd(CacheKey::post_hates(post_id), user_id));
        cmds.push(CacheCmd::Incr(CacheKey::post_hate_count(post_id)));
    } else {
        cmds.push(CacheCmd::SetRem(CacheKey::post_hates(post_id), user_id));
        cmds.push(CacheCmd::Decr(CacheKey::post_hate_count(post_id)));
    }
    proof {
        assert(cmds@ =~= dislike_toggle_cmds(post_id, user_id, enable));
    }
    Ok(cmds)
}

/// Law: the batched toggle commands mean exactly the model's like transition
/// on the target post, and nothing at all on any other post.
pub proof fn lemma_like_cmds_match_model(
    s: EngState,
    post_id: i64,
    user_id: i64,
    enable: bool,
    p: i64,
)
    ensures
        p == post_id ==> apply_cmds(s, like_toggle_cmds(post_id, user_id, enable), p)
            == like_toggle_next(s, user_id, enable),
        p != post_id ==> apply_cmds(s, like_toggle_cmds(post_id, user_id, enable), p) == s,
{
    reveal_with_fuel(apply_cmds, 3);
    let cmds = like_toggle_cmds(post_id, user_id, enable);
    assert(cmds.drop_first().drop_first() =~= Seq::<CacheCmd>::empty());
    assert(apply_cmds(s, cmds, p) == apply_cmd(apply_cmd(s, cmds[0], p), cmds[1], p));
    if p == post_id {
        assert(apply_cmds(s, cmds, p) =~= like_toggle_next(s, user_id, enable));
    }
}

/// Law: the batched dislike commands mean exactly the model's dislike
/// transition on the target post, and nothing on any other.
pub proof fn lemma_dislike_cmds_match_model(
    s: EngState,
    post_id: i64,
    user_id: i64,
    enable: bool,
    p: i64,
)
    ensures
        p == post_id ==> apply_cmds(s, dislike_toggle_cmds(post_id, user_id, enable), p)
            == dislike_toggle_next(s, user_id, enable),
        p != post_id ==> apply_cmds(s, dislike_toggle_cmds(post_id, user_id, enable), p) == s,
{
    reveal_with_fuel(apply_cmds, 3);
    let cmds = dislike_toggle_cmds(post_id, user_id, enable);
    assert(cmds.drop_first().drop_first() =~= Seq::<CacheCmd>::empty());
    assert(apply_cmds(s, cmds, p) == apply_cmd(apply_cmd(s, cmds[0], p), cmds[1], p));
    if p == post_id {
        assert(apply_cmds(s, cmds, p) =~= dislike_toggle_next(s, user_id, enable));
    }
}

/// The cleanup batch for a deleted post: drop its reaction sets and their
/// counters, and, when the deleted row was itself a comment, step the parent
/// post's comment counter down. The deleted post's own comment counter is
/// left in place, matching the store of record's cascade.
pub open spec fn cleanup_cmds(post_id: i64, extends_id: Option<i64>) -> Seq<CacheCmd> {
    let dels = seq![
        CacheCmd::Del(CacheKey { post_id, kind: KeyKind::Likes }),
        CacheCmd::Del(CacheKey { post_id, kind: KeyKind::LikeCount }),
        CacheCmd::Del(CacheKey { post_id, kind: KeyKind::Hates }),
        CacheCmd::Del(CacheKey { post_id, kind: KeyKind::HateCount }),
    ];
    match extends_id {
        Some(parent_id) => dels + seq![
            CacheCmd::Decr(CacheKey { post_id: parent_id, kind: KeyKind::CommentsCount }),
        ],
        None => dels,
    }
}

/// Builds the best-effort cleanup batch for a deleted post.
pub fn delete_cleanup_commands(post_id: i64, extends_id: Option<i64>) -> (r: Vec<CacheCmd>)
    ensures
        r@ == cleanup_cmds(post_id, extends_id),
{
    let mut cmds: Vec<CacheCmd> = Vec::new();
    cmds.push(CacheCmd::Del(CacheKey::post_likes(post_id)));
    cmds.push(CacheCmd::Del(CacheKey::post_like_count(post_id)));
    cmds.push(CacheCmd::Del(CacheKey::post_hates(post_id)));
    cmds.push(CacheCmd::Del(CacheKey::post_hate_count(post_id)));
    if let Some(parent_id) = extends_id {
        cmds.push(CacheCmd::Decr(CacheKey::post_comments_count(parent_id)));
    }
    proof {
        assert(cmds@ =~= cleanup_cmds(post_id, extends_id));
    }
    cmds
}

/// Deletions never move a comment counter, whichever post they are keyed to.
proof fn lemma_dels_keep_comment_count(s: EngState, cmds: Seq<CacheCmd>, p: i64)
    requires
        forall|i: int|
            0 <= i < cmds.len() ==> (#[trigger] cmds[i] matches CacheCmd::Del(k) && k.kind
                != KeyKind::CommentsCount),
    ensures
        apply_cmds(s, cmds, p).comment_count == s.comment_count,
    decreases cmds.len(),
{
    if cmds.len() > 0 {
        assert(cmds[0] matches CacheCmd::Del(k) && k.kind != KeyKind::CommentsCount);
        lemma_dels_keep_comment_count(apply_cmd(s, cmds[0], p), cmds.drop_first(), p);
    }
}

/// The subset of a deleted post's own key deletions that took effect: each
/// flag marks one of the four deletions as having landed.
pub open spec fn partial_dels(
    post_id: i64,
    keep_likes: bool,
    keep_like_count: bool,
    keep_hates: bool,
    keep_hate_count: bool,
) -> Seq<CacheCmd> {
    (if keep_likes {
        seq![CacheCmd::Del(CacheKey { post_id, kind: KeyKind::Likes })]
    } else {
        Seq::empty()
    }) + (if keep_like_count {
        seq![CacheCmd::Del(CacheKey { post_id, kind: KeyKind::LikeCount })]
    } else {
        Seq::empty()
    }) + (if keep_hates {
        seq![CacheCmd::Del(CacheKey { post_id, kind: KeyKind::Hates })]
    } else {
        Seq::empty()
    }) + (if keep_hate_count {
        seq![CacheCmd::Del(CacheKey { post_id, kind: KeyKind::HateCount })]
    } else {
        Seq::empty()
    })
}

/// A comment's cleanup batch as it lands when only some deletions take
/// effect: the surviving deletions, then the parent decrement.
pub open spec fn partial_cleanup(
    comment_id: i64,
    parent_id: i64,
    keep_likes: bool,
    keep_like_count: bool,
    keep_hates: bool,
    keep_hate_count: bool,
) -> Seq<CacheCmd> {
    partial_dels(comment_id, keep_likes, keep_like_count, keep_hates, keep_hate_count) + seq![
        CacheCmd::Decr(CacheKey { post_id: parent_id, kind: KeyKind::CommentsCount }),
    ]
}

/// Law: deleting a comment steps its parent's comment counter down by
/// exactly one. The cleanup is best-effort — whichever of the deleted
/// comment's own key deletions take effect, the decrement on the parent
/// lands all the same.
pub proof fn lemma_cascade_decrements_parent(
    s: EngState,
    comment_id: i64,
    parent_id: i64,
    keep_likes: bool,
    keep_like_count: bool,
    keep_hates: bool,
    keep_hate_count: bool,
)
    ensures
        apply_cmds(
            s,
            partial_cleanup(
                comment_id,
                parent_id,
                keep_likes,
                keep_like_count,
                keep_hates,
                keep_hate_count,
            ),
            parent_id,
        ).comment_count == s.comment_count - 1,
{
    reveal_with_fuel(apply_cmds, 2);
    let dels = partial_dels(comment_id, keep_likes, keep_like_count, keep_hates, keep_hate_count);
    let decr = seq![CacheCmd::Decr(CacheKey { post_id: parent_id, kind: KeyKind::CommentsCount })];
    assert(forall|i: int|
        0 <= i < dels.len() ==> (#[trigger] dels[i] matches CacheCmd::Del(k) && k.kind
            != KeyKind::CommentsCount));
    lemma_apply_cmds_concat(s, dels, decr, parent_id);
    lemma_dels_keep_comment_count(s, dels, parent_id);
    let mid = apply_cmds(s, dels, parent_id);
    assert(decr.drop_first() =~= Seq::<CacheCmd>::empty());
    assert(apply_cmds(mid, decr, parent_id) == apply_cmd(mid, decr[0], parent_id));
}

} // verus!
