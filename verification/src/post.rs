use vstd::prelude::*;

use crate::commands::{toggle_hate_commands, toggle_like_commands, CacheKey};
use crate::errors::EngageError;
use crate::idgen::{IdGenerator, TS_LIMIT};
use crate::model::{
    consistent, dislike_toggle_allowed, dislike_toggle_next, lemma_dislike_toggle_preserves_consistency,
    lemma_like_toggle_preserves_consistency, like_toggle_allowed, like_toggle_next, EngState,
};
use crate::store::CacheStore;

verus! {

/// What the relational store reported for a delete request: the row was
/// removed, carrying its parent's id when the row was a comment, or no row
/// matched the id and owner.
#[derive(Clone, Copy, Debug, PartialEq, Eq, Structural)]
pub enum DeleteOutcome {
    Removed(Option<i64>),
    NoRow,
}

/// Allocates the id for a new post. Persisting the row is the relational
/// store's work; the id must exist before the insert.
pub fn add(gen: &mut IdGenerator, now_millis: u64) -> (r: Result<i64, EngageError>)
    requires
        old(gen).wf(),
        now_millis < TS_LIMIT,
    ensures
        final(gen).wf(),
        final(gen).machine_id == old(gen).machine_id,
        final(gen).node_id == old(gen).node_id,
        r is Err <==> old(gen).exhausted(now_millis),
        r is Err ==> *final(gen) == *old(gen) && r == Err::<i64, EngageError>(
            EngageError::Internal,
        ),
        r matches Ok(id) ==> id as int == final(gen).current_id() && final(gen).current_id()
            > old(gen).current_id(),
{
    get_next_id(gen, now_millis)
}

/// Draws the next id from the shared generator. The caller holds the mutual
/// exclusion around this one read-modify-write; a poisoned lock is its error
/// to report, never a reason to hand out a stale id.
pub fn get_next_id(gen: &mut IdGenerator, now_millis: u64) -> (r: Result<i64, EngageError>)
    requires
        old(gen).wf(),
        now_millis < TS_LIMIT,
    ensures
        final(gen).wf(),
        final(gen).machine_id == old(gen).machine_id,
        final(gen).node_id == old(gen).node_id,
        r is Err <==> old(gen).exhausted(now_millis),
        r is Err ==> *final(gen) == *old(gen) && r == Err::<i64, EngageError>(
            EngageError::Internal,
        ),
        r matches Ok(id) ==> id as int == final(gen).current_id() && final(gen).current_id()
            > old(gen).current_id(),
{
    gen.next_id(now_millis)
}

/// Idempotent like-toggle: checks the viewer's membership in the post's like
/// set, refuses the call as already-in-state when the requested state holds,
/// and otherwise submits the set mutation batched with the counter step.
pub fn toggle_like(store: &mut CacheStore, post_id: i64, user_id: i64, enable: bool) -> (r: Result<
    (),
    EngageError,
>)
    requires
        enable && !old(store).like_set(post_id).contains(user_id) ==> old(store).like_count(
            post_id,
        ) < i64::MAX,
        !enable && old(store).like_set(post_id).contains(user_id) ==> old(store).like_count(
            post_id,
        ) > i64::MIN,
    ensures
        r is Ok <==> like_toggle_allowed(old(store).entry_state(post_id), user_id, enable),
        r is Err ==> *final(store) == *old(store) && r == Err::<(), EngageError>(
            EngageError::AlreadyInState,
        ),
        r is Ok ==> final(store).entry_state(post_id) == like_toggle_next(
            old(store).entry_state(post_id),
            user_id,
            enable,
        ),
        forall|q: i64|
            q != post_id ==> #[trigger] final(store).entry_state(q) == old(store).entry_state(q),
        consistent(old(store).entry_state(post_id)) ==> consistent(
            final(store).entry_state(post_id),
        ),
{
    let ghost s0 = *store;
    let likes_key = CacheKey::post_likes(post_id);
    let member = store.set_contains(&likes_key, user_id);
    let cmds = match toggle_like_commands(post_id, user_id, enable, member) {
        Ok(cmds) => cmds,
        Err(e) => {
            return Err(e);
        },
    };
    let c0 = cmds[0];
    let c1 = cmds[1];
    store.apply(&c0);
    store.apply(&c1);
    proof {
        assert(store.entry_state(post_id) =~= like_toggle_next(
            s0.entry_state(post_id),
            user_id,
            enable,
        ));
        if consistent(s0.entry_state(post_id)) {
            lemma_like_toggle_preserves_consistency(s0.entry_state(post_id), user_id, enable);
        }
    }
    Ok(())
}

/// Idempotent dislike-toggle, symmetric to the like-toggle.
pub fn toggle_dislike(store: &mut CacheStore, post_id: i64, user_id: i64, enable: bool) -> (r:
    Result<(), EngageError>)
    requires
        enable && !old(store).dislike_set(post_id).contains(user_id) ==> old(store).dislike_count(
            post_id,
        ) < i64::MAX,
        !enable && old(store).dislike_set(post_id).contains(user_id) ==> old(store).dislike_count(
            post_id,
        ) > i64::MIN,
    ensures
        r is Ok <==> dislike_toggle_allowed(old(store).entry_state(post_id), user_id, enable),
        r is Err ==> *final(store) == *old(store) && r == Err::<(), EngageError>(
            EngageError::AlreadyInState,
        ),
        r is Ok ==> final(store).entry_state(post_id) == dislike_toggle_next(
            old(store).entry_state(post_id),
            user_id,
            enable,
        ),
        forall|q: i64|
            q != post_id ==> #[trigger] final(store).entry_state(q) == old(store).entry_state(q),
        consistent(old(store).entry_state(post_id)) ==> consistent(
            final(store).entry_state(post_id),
        ),
{
    let ghost s0 = *store;
    let hates_key = CacheKey::post_hates(post_id);
    let member = store.set_contains(&hates_key, user_id);
    let cmds = match toggle_hate_commands(post_id, user_id, enable, member) {
        Ok(cmds) => cmds,
        Err(e) => {
            return Err(e);
        },
    };
    let c0 = cmds[0];
    let c1 = cmds[1];
    store.apply(&c0);
    store.apply(&c1);
    proof {
        assert(store.entry_state(post_id) =~= dislike_toggle_next(
            s0.entry_state(post_id),
            user_id,
            enable,
        ));
        if consistent(s0.entry_state(post_id)) {
            lemma_dislike_toggle_preserves_consistency(s0.entry_state(post_id), user_id, enable);
        }
    }
    Ok(())
}

/// Marks the post as liked by the user; refused when already liked.
pub fn like(store: &mut CacheStore, post_id: i64, user_id: i64) -> (r: Result<(), EngageError>)
    requires
        !old(store).like_set(post_id).contains(user_id) ==> old(store).like_count(post_id)
            < i64::MAX,
    ensures
        r is Ok <==> !old(store).like_set(post_id).contains(user_id),
        r is Err ==> *final(store) == *old(store) && r == Err::<(), EngageError>(
            EngageError::AlreadyInState,
        ),
        r is Ok ==> final(store).entry_state(post_id) == like_toggle_next(
            old(store).entry_state(post_id),
            user_id,
            true,
        ),
        forall|q: i64|
            q != post_id ==> #[trigger] final(store).entry_state(q) == old(store).entry_state(q),
        consistent(old(store).entry_state(post_id)) ==> consistent(
            final(store).entry_state(post_id),
        ),
{
    toggle_like(store, post_id, user_id, true)
}

/// Withdraws the user's like; refused when the user never liked the post.
pub fn cancel_like(store: &mut CacheStore, post_id: i64, user_id: i64) -> (r: Result<
    (),
    EngageError,
>)
    requires
        old(store).like_set(post_id).contains(user_id) ==> old(store).like_count(post_id)
            > i64::MIN,
    ensures
        r is Ok <==> old(store).like_set(post_id).contains(user_id),
        r is Err ==> *final(store) == *old(store) && r == Err::<(), EngageError>(
            EngageError::AlreadyInState,
        ),
        r is Ok ==> final(store).entry_state(post_id) == like_toggle_next(
            old(store).entry_state(post_id),
            user_id,
            false,
        ),
        forall|q: i64|
            q != post_id ==> #[trigger] final(store).entry_state(q) == old(store).entry_state(q),
        consistent(old(store).entry_state(post_id)) ==> consistent(
            final(store).entry_state(post_id),
        ),
{
    toggle_like(store, post_id, user_id, false)
}

/// Marks the post as disliked by the user; refused when already disliked.
pub fn hate(store: &mut CacheStore, post_id: i64, user_id: i64) -> (r: Result<(), EngageError>)
    requires
        !old(store).dislike_set(post_id).contains(user_id) ==> old(store).dislike_count(post_id)
            < i64::MAX,
    ensures
        r is Ok <==> !old(store).dislike_set(post_id).contains(user_id),
        r is Err ==> *final(store) == *old(store) && r == Err::<(), EngageError>(
            EngageError::AlreadyInState,
        ),
        r is Ok ==> final(store).entry_state(post_id) == dislike_toggle_next(
            old(store).entry_state(post_id),
            user_id,
            true,
        ),
        forall|q: i64|
            q != post_id ==> #[trigger] final(store).entry_state(q) == old(store).entry_state(q),
        consistent(old(store).entry_state(post_id)) ==> consistent(
            final(store).entry_state(post_id),
        ),
{
    toggle_dislike(store, post_id, user_id, true)
}

/// Withdraws the user's dislike; refused when the user never disliked it.
pub fn cancel_hate(store: &mut CacheStore, post_id: i64, user_id: i64) -> (r: Result<
    (),
    EngageError,
>)
    requires
        old(store).dislike_set(post_id).contains(user_id) ==> old(store).dislike_count(post_id)
            > i64::MIN,
    ensures
        r is Ok <==> old(store).dislike_set(post_id).contains(user_id),
        r is Err ==> *final(store) == *old(store) && r == Err::<(), EngageError>(
            EngageError::AlreadyInState,
        ),
        r is Ok ==> final(store).entry_state(post_id) == dislike_toggle_next(
            old(store).entry_state(post_id),
            user_id,
            false,
        ),
        forall|q: i64|
            q != post_id ==> #[trigger] final(store).entry_state(q) == old(store).entry_state(q),
        consistent(old(store).entry_state(post_id)) ==> consistent(
            final(store).entry_state(post_id),
        ),
{
    toggle_dislike(store, post_id, user_id, false)
}

/// Settles a delete request against the cache. When the relational store
/// removed no row (not found, or not the caller's post) nothing happens and
/// the caller is told so distinctly. When a row was removed, the post's
/// reaction slots are dropped and, for a comment, the parent's comment
/// counter steps down by one — the deletion of record already happened, so
/// the cleanup here never turns into a failure of the delete itself.
pub fn delete(store: &mut CacheStore, post_id: i64, outcome: DeleteOutcome) -> (r: Result<
    (),
    EngageError,
>)
    requires
        outcome matches DeleteOutcome::Removed(Some(parent_id)) ==> old(store).comment_count(
            parent_id,
        ) > i64::MIN,
    ensures
        r is Ok <==> outcome is Removed,
        outcome is NoRow ==> *final(store) == *old(store) && r == Err::<(), EngageError>(
            EngageError::NotFound,
        ),
        outcome matches DeleteOutcome::Removed(ext) ==> {
            &&& final(store).like_set(post_id) == Set::<i64>::empty()
            &&& final(store).like_count(post_id) == 0
            &&& final(store).dislike_set(post_id) == Set::<i64>::empty()
            &&& final(store).dislike_count(post_id) == 0
            &&& (ext matches Some(parent_id) ==> final(store).comment_count(parent_id) == old(
                store,
            ).comment_count(parent_id) - 1)
            &&& (ext != Some(post_id) ==> final(store).comment_count(post_id) == old(
                store,
            ).comment_count(post_id))
            &&& (ext matches Some(parent_id) ==> (parent_id != post_id ==> final(store).entry_state(
                parent_id,
            ) == (EngState {
                comment_count: old(store).comment_count(parent_id) - 1,
                ..old(store).entry_state(parent_id)
            })))
            &&& forall|q: i64|
                q != post_id && Some(q) != ext ==> #[trigger] final(store).entry_state(q) == old(
                    store,
                ).entry_state(q)
        },
{
    match outcome {
        DeleteOutcome::NoRow => Err(EngageError::NotFound),
        DeleteOutcome::Removed(ext) => {
            store.del(&CacheKey::post_likes(post_id));
            store.del(&CacheKey::post_like_count(post_id));
            store.del(&CacheKey::post_hates(post_id));
            store.del(&CacheKey::post_hate_count(post_id));
            if let Some(parent_id) = ext {
                store.counter_decr(&CacheKey::post_comments_count(parent_id));
            }
            Ok(())
        },
    }
}

/// Settles a successful comment insert against the generator and the cache:
/// allocates the comment's id and steps the parent post's comment counter.
/// An id allocation failure aborts before anything is counted.
pub fn comment(store: &mut CacheStore, gen: &mut IdGenerator, now_millis: u64, origin_id: i64) -> (r:
    Result<i64, EngageError>)
    requires
        old(gen).wf(),
        now_millis < TS_LIMIT,
        old(store).comment_count(origin_id) < i64::MAX,
    ensures
        final(gen).wf(),
        r is Err <==> old(gen).exhausted(now_millis),
        r is Err ==> *final(store) == *old(store) && *final(gen) == *old(gen) && r == Err::<
            i64,
            EngageError,
        >(EngageError::Internal),
        r matches Ok(id) ==> {
            &&& id as int == final(gen).current_id()
            &&& final(gen).current_id() > old(gen).current_id()
            &&& final(store).entry_state(origin_id) == (EngState {
                comment_count: old(store).comment_count(origin_id) + 1,
                ..old(store).entry_state(origin_id)
            })
            &&& forall|q: i64|
                q != origin_id ==> #[trigger] final(store).entry_state(q) == old(
                    store,
                ).entry_state(q)
        },
{
    let id = match gen.next_id(now_millis) {
        Ok(id) => id,
        Err(e) => {
            return Err(e);
        },
    };
    store.counter_incr(&CacheKey::post_comments_count(origin_id));
    Ok(id)
}

/// The relational offset of a result page, as the listing queries use it.
pub fn page_offset(page: i64, limit: i64) -> (off: i64)
    requires
        1 <= page,
        0 <= limit,
        limit * (page - 1) <= i64::MAX,
    ensures
        off == limit * (page - 1),
{
    proof {
        assert(0 <= limit * (page - 1)) by (nonlinear_arith)
            requires
                0 <= limit,
                1 <= page,
        ;
    }
    limit * (page - 1)
}

} // verus!

