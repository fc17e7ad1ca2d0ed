use vstd::prelude::*;

verus! {

broadcast use vstd::set::group_set_axioms;

/// The engagement state the cache holds for one post: who reacted, the
/// cached cardinalities, and the comment counter. The counters are stored
/// independently of the sets — keeping them equal to the set sizes is the
/// toggle discipline's job, not a property of the raw store.
#[verifier::ext_equal]
pub ghost struct EngState {
    pub likes: Set<i64>,
    pub dislikes: Set<i64>,
    pub like_count: int,
    pub dislike_count: int,
    pub comment_count: int,
}

/// What the cache holds for a post it has never seen: absent reads as zero.
pub open spec fn empty_state() -> EngState {
    EngState {
        likes: Set::empty(),
        dislikes: Set::empty(),
        like_count: 0,
        dislike_count: 0,
        comment_count: 0,
    }
}

/// A like-toggle is allowed exactly when the requested membership differs
/// from the current one; otherwise it fails as already-in-state.
pub open spec fn like_toggle_allowed(s: EngState, user_id: i64, enable: bool) -> bool {
    s.likes.contains(user_id) != enable
}

/// The state after an allowed like-toggle: the set mutation together with
/// the matching counter step, everything else untouched.
pub open spec fn like_toggle_next(s: EngState, user_id: i64, enable: bool) -> EngState {
    if enable {
        EngState { likes: s.likes.insert(user_id), like_count: s.like_count + 1, ..s }
    } else {
        EngState { likes: s.likes.remove(user_id), like_count: s.like_count - 1, ..s }
    }
}

/// A dislike-toggle is allowed exactly when the requested membership differs
/// from the current one.
pub open spec fn dislike_toggle_allowed(s: EngState, user_id: i64, enable: bool) -> bool {
    s.dislikes.contains(user_id) != enable
}

/// The state after an allowed dislike-toggle.
pub open spec fn dislike_toggle_next(s: EngState, user_id: i64, enable: bool) -> EngState {
    if enable {
        EngState { dislikes: s.dislikes.insert(user_id), dislike_count: s.dislike_count + 1, ..s }
    } else {
        EngState { dislikes: s.dislikes.remove(user_id), dislike_count: s.dislike_count - 1, ..s }
    }
}

/// The cache invariant: each cached cardinality equals the size of its set.
pub open spec fn consistent(s: EngState) -> bool {
    &&& s.likes.finite()
    &&& s.like_count == s.likes.len()
    &&& s.dislikes.finite()
    &&& s.dislike_count == s.dislikes.len()
}

/// A fresh cache entry is consistent: empty sets, zero counters.
pub proof fn lemma_empty_state_consistent()
    ensures
        consistent(empty_state()),
{
}

/// Law: any allowed like-toggle keeps every cached count equal to the size
/// of its set, so any sequence of allowed toggles does too.
pub proof fn lemma_like_toggle_preserves_consistency(s: EngState, user_id: i64, enable: bool)
    requires
        consistent(s),
        like_toggle_allowed(s, user_id, enable),
    ensures
        consistent(like_toggle_next(s, user_id, enable)),
{
}

/// Law: any allowed dislike-toggle preserves the same invariant.
pub proof fn lemma_dislike_toggle_preserves_consistency(s: EngState, user_id: i64, enable: bool)
    requires
        consistent(s),
        dislike_toggle_allowed(s, user_id, enable),
    ensures
        consistent(dislike_toggle_next(s, user_id, enable)),
{
}

/// Law: repeating a like-toggle in the same direction is refused the second
/// time — after a like, liking again is already-in-state; after an un-like,
/// un-liking again is too.
pub proof fn lemma_repeat_like_toggle_refused(s: EngState, user_id: i64, enable: bool)
    requires
        like_toggle_allowed(s, user_id, enable),
    ensures
        !like_toggle_allowed(like_toggle_next(s, user_id, enable), user_id, enable),
{
}

/// Law: repeating a dislike-toggle in the same direction is refused the
/// second time.
pub proof fn lemma_repeat_dislike_toggle_refused(s: EngState, user_id: i64, enable: bool)
    requires
        dislike_toggle_allowed(s, user_id, enable),
    ensures
        !dislike_toggle_allowed(dislike_toggle_next(s, user_id, enable), user_id, enable),
{
}

/// Law: a like followed by an un-like restores the state exactly — net
/// counter delta zero, and the set no longer contains the user.
pub proof fn lemma_like_round_trip(s: EngState, user_id: i64)
    requires
        like_toggle_allowed(s, user_id, true),
    ensures
        like_toggle_allowed(like_toggle_next(s, user_id, true), user_id, false),
        like_toggle_next(like_toggle_next(s, user_id, true), user_id, false) == s,
        !like_toggle_next(like_toggle_next(s, user_id, true), user_id, false).likes.contains(
            user_id,
        ),
{
    assert(s.likes.insert(user_id).remove(user_id) =~= s.likes);
    assert(like_toggle_next(like_toggle_next(s, user_id, true), user_id, false) =~= s);
}

/// One toggle request against a post's engagement state.
pub ghost struct ToggleEvent {
    /// A like-toggle when set, a dislike-toggle otherwise.
    pub is_like: bool,
    pub user_id: i64,
    pub enable: bool,
}

/// The state after one toggle request: the transition when the request is
/// allowed, the state untouched when it is refused as already-in-state.
pub open spec fn toggle_step(s: EngState, ev: ToggleEvent) -> EngState {
    if ev.is_like {
        if like_toggle_allowed(s, ev.user_id, ev.enable) {
            like_toggle_next(s, ev.user_id, ev.enable)
        } else {
            s
        }
    } else {
        if dislike_toggle_allowed(s, ev.user_id, ev.enable) {
            dislike_toggle_next(s, ev.user_id, ev.enable)
        } else {
            s
        }
    }
}

/// The state after a whole sequence of toggle requests, in order.
pub open spec fn run_toggles(s: EngState, evs: Seq<ToggleEvent>) -> EngState
    decreases evs.len(),
{
    if evs.len() == 0 {
        s
    } else {
        run_toggles(toggle_step(s, evs[0]), evs.drop_first())
    }
}

/// Law: after any sequence of toggle requests — allowed or refused, likes
/// and dislikes interleaved — each cached count still equals the size of
/// its set.
pub proof fn lemma_toggles_keep_consistency(s: EngState, evs: Seq<ToggleEvent>)
    requires
        consistent(s),
    ensures
        consistent(run_toggles(s, evs)),
    decreases evs.len(),
{
    if evs.len() > 0 {
        let ev = evs[0];
        if ev.is_like {
            if like_toggle_allowed(s, ev.user_id, ev.enable) {
                lemma_like_toggle_preserves_consistency(s, ev.user_id, ev.enable);
            }
        } else {
            if dislike_toggle_allowed(s, ev.user_id, ev.enable) {
                lemma_dislike_toggle_preserves_consistency(s, ev.user_id, ev.enable);
            }
        }
        lemma_toggles_keep_consistency(toggle_step(s, ev), evs.drop_first());
    }
}

/// Law: a dislike followed by an un-dislike restores the state exactly.
pub proof fn lemma_dislike_round_trip(s: EngState, user_id: i64)
    requires
        dislike_toggle_allowed(s, user_id, true),
    ensures
        dislike_toggle_allowed(dislike_toggle_next(s, user_id, true), user_id, false),
        dislike_toggle_next(dislike_toggle_next(s, user_id, true), user_id, false) == s,
    {
    assert(s.dislikes.insert(user_id).remove(user_id) =~= s.dislikes);
    assert(dislike_toggle_next(dislike_toggle_next(s, user_id, true), user_id, false) =~= s);
}

} // verus!
