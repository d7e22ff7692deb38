//! An adaptive mutual-exclusion lock.
//!
//! The lock spins briefly before falling back to a blocking wait, and tunes
//! its spin budget at runtime from recent observed contention.  A shared,
//! lock-free moving-average estimator approximates how many spin iterations
//! are typically needed before the lock becomes free; each acquisition reads
//! the estimator to size its spin budget and, on success, feeds the observed
//! spin count back into it.
//!
//! [`lock`] holds the lock itself and its acquisition algorithm, driving
//! `std::sync::Mutex` as the underlying exclusive-lock primitive;
//! [`estimate`] holds the moving-average estimator and the proofs of its
//! monotone approach and convergence; [`errors`] holds the two ways an
//! acquisition fails; and [`protocol`] states the lock's abstract life
//! cycle — unlocked, locked, poisoned — with the proofs that at most one
//! guard is ever live and that poison, once set, is never shed.

pub mod estimate;
pub mod errors;
pub mod lock;
pub mod protocol;

pub use errors::PoisonError;
pub use errors::TryLockError;
pub use lock::AdaptiveMutex;
pub use lock::Guard;
