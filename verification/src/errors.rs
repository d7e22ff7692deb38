//! Errors reported by the lock.
//!
//! Contention is handled inside the acquisition algorithm and never
//! surfaces from a blocking acquisition; only a non-blocking attempt
//! reports it, as [`TryLockError::WouldBlock`].  Poison always surfaces
//! and is never silently absorbed: a poison error still carries a handle
//! to the protected value, so a caller that accepts the risk can reach it
//! explicitly.

use vstd::prelude::*;

verus! {

/// The protected value may be inconsistent: a prior holder of the guard
/// failed while holding it.  The payload is the handle the failed
/// acquisition would otherwise have returned, so the value stays
/// reachable — using it is the caller's explicit choice.
pub struct PoisonError<G>(pub G);

impl<G> PoisonError<G> {
    /// Wraps a handle whose protected value may be inconsistent.
    pub fn new(handle: G) -> (r: PoisonError<G>)
        ensures
            r == (PoisonError(handle)),
    {
        PoisonError(handle)
    }

    /// The wrapped handle, by reference.
    pub fn get_ref(&self) -> (r: &G)
        ensures
            *r == self.0,
    {
        &self.0
    }

    /// Consumes the error, yielding the wrapped handle.
    pub fn into_inner(self) -> (r: G)
        ensures
            r == self.0,
    {
        self.0
    }
}

/// Why a non-blocking acquisition attempt failed: the lock was poisoned,
/// or it was merely held by another party at that instant.  The two are
/// distinct so that callers can treat transient contention and possible
/// corruption differently.
pub enum TryLockError<G> {
    /// The lock is poisoned; the payload still reaches the value.
    Poisoned(PoisonError<G>),
    /// The lock was held, not poisoned.  Purely transient; safe to retry.
    WouldBlock,
}

} // verus!
