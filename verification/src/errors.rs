use vstd::prelude::*;

verus! {

/// Failure taxonomy surfaced by the engagement core.
#[derive(Clone, Copy, Debug, PartialEq, Eq, Structural)]
pub enum EngageError {
    /// The requested reaction state already holds: liking an already-liked
    /// post, or un-liking a post the user never liked. A client-visible
    /// precondition failure, not a server error.
    AlreadyInState,
    /// The target row does not exist or is not owned by the caller.
    NotFound,
    /// The id generator's lock was poisoned by a thread that panicked.
    /// Fatal for the current request only.
    PoisonError,
    /// Unrecoverable internal failure.
    Internal,
}

} // verus!
