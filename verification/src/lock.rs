//! The hybrid lock core: exclusive access to one protected value, with an
//! acquisition that spins briefly under contention before falling back to a
//! blocking wait, sized by the shared contention estimate.
//!
//! The underlying exclusive-lock primitive is `std::sync::Mutex`: it alone
//! arbitrates exclusivity, detects poison, and parks a blocking waiter.
//! This module drives it through narrow trusted calls and verifies
//! everything around them — the spin/escalate decision, the feeding of the
//! estimator, and the exact mapping of every raw outcome onto the result
//! the caller sees.

use vstd::prelude::*;

use crate::errors::{PoisonError, TryLockError};
use crate::estimate::SpinEstimator;
use std::sync::{Mutex, MutexGuard};

verus! {

/// The spin budget is this multiple of the current contention estimate.
pub const SPIN_BUDGET_FACTOR: isize = 2;

/// Whether an acquisition that has already failed `num_spins` non-blocking
/// attempts abandons spinning: the budget of `SPIN_BUDGET_FACTOR` times the
/// estimate is spent.  A zero or negative estimate degrades to immediate
/// blocking.
pub open spec fn escalates(num_spins: int, estimate: int) -> bool {
    num_spins >= SPIN_BUDGET_FACTOR * estimate
}

/// Computes [`escalates`] without overflow for any pair of machine integers.
pub fn should_escalate(num_spins: isize, estimate: isize) -> (r: bool)
    ensures
        r == escalates(num_spins as int, estimate as int),
{
    (num_spins as i128) >= (SPIN_BUDGET_FACTOR as i128) * (estimate as i128)
}

/// How many contended non-blocking attempts an acquisition makes before it
/// escalates, while the estimate stays fixed: the spin budget, and at least
/// one, since a zero or negative estimate blocks on the first contended
/// failure.
pub open spec fn spin_budget(estimate: int) -> int {
    vstd::math::max(1, SPIN_BUDGET_FACTOR * estimate)
}

/// Escalation comes exactly at the spin budget.  In [`AdaptiveMutex::lock`]
/// the spin count rises by one per contended failure and is checked against
/// [`escalates`] right after; so while the estimate stays fixed at
/// `estimate` and every attempt finds the lock held, no attempt before the
/// `spin_budget(estimate)`-th escalates and that one does — the blocking
/// wait follows exactly `spin_budget(estimate)` contended attempts, never
/// an unbounded spin.
pub proof fn lemma_escalation_point(estimate: int)
    ensures
        escalates(spin_budget(estimate), estimate),
        forall|n: int| 1 <= n < spin_budget(estimate) ==> !escalates(n, estimate),
{
}

/// Declares `std::sync::Mutex`, the underlying exclusive-lock primitive,
/// to the verifier.  Its values are opaque here: whatever this module needs
/// from one goes through the trusted calls below.
#[verifier::external_type_specification]
#[verifier::external_body]
#[verifier::reject_recursive_types(T)]
pub struct ExMutex<T: ?Sized>(Mutex<T>);

/// Declares `std::sync::MutexGuard`, the underlying primitive's scoped
/// token of exclusive access, to the verifier.  Opaque as well; dropping
/// one releases the underlying lock.
#[verifier::external_type_specification]
#[verifier::external_body]
#[verifier::reject_recursive_types(T)]
pub struct ExMutexGuard<'a, T: ?Sized + 'a>(MutexGuard<'a, T>);

/// What one non-blocking acquisition attempt on the underlying primitive
/// found.
#[verifier::reject_recursive_types(T)]
pub enum TryOutcome<'a, T> {
    /// The lock was free and not poisoned; it is now held.
    Acquired(MutexGuard<'a, T>),
    /// The lock was held by another party at that instant.
    Busy,
    /// The lock is poisoned; it is nevertheless now held, so the value
    /// stays reachable.
    Poisoned(MutexGuard<'a, T>),
}

/// Relies on `std::sync::Mutex::new`: wraps the value in a fresh unlocked,
/// unpoisoned mutex.
#[verifier::external_body]
fn raw_new<T>(value: T) -> Mutex<T> {
    Mutex::new(value)
}

/// Relies on `std::sync::Mutex::try_lock`: a single non-blocking attempt,
/// reporting a held lock and a poisoned lock as distinct outcomes.  Which
/// outcome comes back depends on what other threads hold at that instant,
/// so nothing is promised of it.
#[verifier::external_body]
fn raw_try_lock<'a, T>(mutex: &'a Mutex<T>) -> TryOutcome<'a, T> {
    match mutex.try_lock() {
        Ok(g) => TryOutcome::Acquired(g),
        Err(std::sync::TryLockError::WouldBlock) => TryOutcome::Busy,
        Err(std::sync::TryLockError::Poisoned(e)) => TryOutcome::Poisoned(e.into_inner()),
    }
}

/// A scoped token proving exclusive access to the protected value, returned
/// by a successful acquisition.  Dropping it releases the underlying lock;
/// if the holder fails before that, the drop during the failure marks the
/// lock poisoned.
#[verifier::reject_recursive_types(T)]
pub struct Guard<'a, T> {
    inner: MutexGuard<'a, T>,
    last_write: Ghost<Option<T>>,
}

impl<'a, T> Guard<'a, T> {
    /// The underlying guard this token wraps.
    pub closed spec fn raw(&self) -> MutexGuard<'a, T> {
        self.inner
    }

    /// The value most recently written through this guard, if any write
    /// has happened through it.  While the guard is live nothing else can
    /// touch the protected value, so a recorded write is exactly what a
    /// read will find.
    pub closed spec fn recorded(&self) -> Option<T> {
        self.last_write@
    }

    /// Relies on `std::sync::MutexGuard`'s `Deref`: reads the protected
    /// value, which only this guard can have written since its last write.
    #[verifier::external_body]
    pub fn get(&self) -> (r: &T)
        ensures
            self.recorded() matches Some(v) ==> *r == v,
    {
        &*self.inner
    }

    /// Relies on `std::sync::MutexGuard`'s `DerefMut`: stores `value` into
    /// the protected value.
    #[verifier::external_body]
    pub fn set(&mut self, value: T)
        ensures
            final(self).recorded() == Some(value),
    {
        *self.inner = value;
    }
}

/// Turns the outcome of a non-blocking attempt into what the caller of
/// [`AdaptiveMutex::try_lock`] sees: an acquisition yields a guard, a held
/// lock reports [`TryLockError::WouldBlock`], and a poisoned lock reports
/// [`TryLockError::Poisoned`] — never `WouldBlock` — with the guard inside
/// the error, so the value stays reachable.
pub fn resolve_try<'a, T>(outcome: TryOutcome<'a, T>) -> (r: Result<
    Guard<'a, T>,
    TryLockError<Guard<'a, T>>,
>)
    ensures
        r is Ok <==> outcome is Acquired,
        (r matches Err(e) && e is WouldBlock) <==> outcome is Busy,
        (r matches Err(e) && e is Poisoned) <==> outcome is Poisoned,
        outcome matches TryOutcome::Acquired(m) ==> r matches Ok(g) && g.raw() == m
            && g.recorded() is None,
        outcome matches TryOutcome::Poisoned(m) ==> r matches Err(e) && e matches
            TryLockError::Poisoned(p) && p.0.raw() == m && p.0.recorded() is None,
{
    match outcome {
        TryOutcome::Acquired(m) => Ok(Guard { inner: m, last_write: Ghost(None) }),
        TryOutcome::Busy => Err(TryLockError::WouldBlock),
        TryOutcome::Poisoned(m) => Err(
            TryLockError::Poisoned(PoisonError(Guard { inner: m, last_write: Ghost(None) })),
        ),
    }
}

/// What a blocking acquisition on the underlying primitive found once it
/// obtained the lock.
#[verifier::reject_recursive_types(T)]
pub enum WaitOutcome<'a, T> {
    /// The lock is held and was not poisoned.
    Acquired(MutexGuard<'a, T>),
    /// The lock is poisoned; it is nevertheless now held, so the value
    /// stays reachable.
    Poisoned(MutexGuard<'a, T>),
}

/// Relies on `std::sync::Mutex::lock`: suspends the calling thread until
/// the lock is free, then holds it, reporting poison with the guard still
/// inside.  Acquiring again from the thread already holding the lock is a
/// caller error, as for any exclusive lock; std leaves that case open — the
/// call may panic or may never return.
#[verifier::external_body]
fn raw_wait_lock<'a, T>(mutex: &'a Mutex<T>) -> WaitOutcome<'a, T> {
    match mutex.lock() {
        Ok(g) => WaitOutcome::Acquired(g),
        Err(e) => WaitOutcome::Poisoned(e.into_inner()),
    }
}

/// Relies on `std::sync::Mutex::is_poisoned`: whether some holder has
/// failed while holding the lock.  The answer may be stale the instant it
/// is returned, so nothing is promised of it.
#[verifier::external_body]
fn raw_is_poisoned<T>(mutex: &Mutex<T>) -> bool {
    mutex.is_poisoned()
}

/// Relies on `std::sync::Mutex::get_mut`: with the mutex itself borrowed
/// exclusively no guard can coexist, so the protected value is reached
/// directly, poisoned or not.
#[verifier::external_body]
fn raw_get_mut<'a, T>(mutex: &'a mut Mutex<T>) -> &'a mut T {
    match mutex.get_mut() {
        Ok(v) => v,
        Err(e) => e.into_inner(),
    }
}

/// Relies on `std::sync::Mutex::into_inner`: consumes the mutex and yields
/// the protected value, marked as poisoned exactly when some holder failed
/// while holding the lock.
#[verifier::external_body]
fn raw_into_inner<T>(mutex: Mutex<T>) -> TakeOutcome<T> {
    match mutex.into_inner() {
        Ok(v) => TakeOutcome::Clean(v),
        Err(e) => TakeOutcome::Poisoned(e.into_inner()),
    }
}

/// What consuming the underlying primitive yielded.
pub enum TakeOutcome<T> {
    /// The protected value; no holder ever failed while holding the lock.
    Clean(T),
    /// The protected value, but some holder failed while holding the lock,
    /// so it may be inconsistent.
    Poisoned(T),
}

/// Turns the outcome of a blocking acquisition into what the caller of
/// [`AdaptiveMutex::lock`] sees: the guard, or — for a poisoned lock — a
/// [`PoisonError`] that still carries the guard.
pub fn resolve_wait<'a, T>(outcome: WaitOutcome<'a, T>) -> (r: Result<
    Guard<'a, T>,
    PoisonError<Guard<'a, T>>,
>)
    ensures
        r is Ok <==> outcome is Acquired,
        r is Err <==> outcome is Poisoned,
        outcome matches WaitOutcome::Acquired(m) ==> r matches Ok(g) && g.raw() == m
            && g.recorded() is None,
        outcome matches WaitOutcome::Poisoned(m) ==> r matches Err(e) && e.0.raw() == m
            && e.0.recorded() is None,
{
    match outcome {
        WaitOutcome::Acquired(m) => Ok(Guard { inner: m, last_write: Ghost(None) }),
        WaitOutcome::Poisoned(m) => Err(PoisonError(Guard { inner: m, last_write: Ghost(None) })),
    }
}

/// Turns the outcome of consuming the underlying primitive into what the
/// caller of [`AdaptiveMutex::into_inner`] sees: the value itself when no
/// holder ever failed, and otherwise a [`PoisonError`] from whose payload
/// the value can still be retrieved.
pub fn resolve_take<T>(outcome: TakeOutcome<T>) -> (r: Result<T, PoisonError<T>>)
    ensures
        r is Ok <==> outcome is Clean,
        r is Err <==> outcome is Poisoned,
        outcome matches TakeOutcome::Clean(v) ==> r == Ok::<T, PoisonError<T>>(v),
        outcome matches TakeOutcome::Poisoned(v) ==> r == Err::<T, PoisonError<T>>(
            (PoisonError(v)),
        ),
{
    match outcome {
        TakeOutcome::Clean(v) => Ok(v),
        TakeOutcome::Poisoned(v) => Err(PoisonError(v)),
    }
}

/// Turns the poison flag and the direct access obtained under unique
/// ownership into what the caller of [`AdaptiveMutex::get_mut`] sees: the
/// access itself exactly when the lock is unpoisoned, and otherwise a
/// [`PoisonError`] that still carries the access, so a caller that accepts
/// the risk reaches the protected value either way.
pub fn resolve_exclusive<'a, T>(poisoned: bool, data: &'a mut T) -> (r: Result<
    &'a mut T,
    PoisonError<&'a mut T>,
>)
    ensures
        r is Err <==> poisoned,
        r matches Ok(v) ==> *v == *old(data),
        r matches Err(e) ==> *(e.0) == *old(data),
{
    if poisoned {
        Err(PoisonError(data))
    } else {
        Ok(data)
    }
}

/// A mutual-exclusion lock that adapts its spin budget to observed
/// contention.  The protected value is owned by the lock and reachable only
/// through a [`Guard`]; the shared [`SpinEstimator`] is the one piece of
/// state updated outside the underlying primitive's discipline, and it
/// tolerates races by construction.
#[verifier::reject_recursive_types(T)]
pub struct AdaptiveMutex<T> {
    estimator: SpinEstimator,
    mutex: Mutex<T>,
}

impl<T> AdaptiveMutex<T> {
    /// The spin estimate this lock's estimator started from.
    pub closed spec fn initial_estimate(&self) -> isize {
        self.estimator.initial()
    }

    /// A fresh unlocked lock around `value`, with the contention estimate
    /// starting at zero.
    pub fn new(value: T) -> (r: AdaptiveMutex<T>)
        ensures
            r.initial_estimate() == 0,
    {
        AdaptiveMutex { estimator: SpinEstimator::new(0), mutex: raw_new(value) }
    }

    /// A single non-blocking acquisition attempt: no spinning, no estimator
    /// interaction.  Contention and poison come back as distinct errors so
    /// callers can branch on each; whichever guard is handed out has no
    /// write recorded yet.
    pub fn try_lock<'a>(&'a self) -> (r: Result<Guard<'a, T>, TryLockError<Guard<'a, T>>>)
        ensures
            r matches Ok(g) ==> g.recorded() is None,
            r matches Err(e) ==> (e matches TryLockError::Poisoned(p) ==> p.0.recorded()
                is None),
    {
        resolve_try(raw_try_lock(&self.mutex))
    }

    /// Acquires the lock, adapting to contention.  Every attempt is
    /// non-blocking; after each contended failure the spin count is checked
    /// against the budget of [`SPIN_BUDGET_FACTOR`] times the estimate,
    /// re-read from the shared estimator, and once the budget is spent the
    /// acquisition escalates to one blocking wait on the underlying
    /// primitive rather than spinning on.  A success in the spin phase
    /// feeds the observed spin count back into the estimator; an escalated
    /// acquisition does not.  Poison is returned at once, never spun
    /// through, and contention never surfaces to the caller.
    pub fn lock<'a>(&'a self) -> (r: Result<Guard<'a, T>, PoisonError<Guard<'a, T>>>)
        ensures
            r matches Ok(g) ==> g.recorded() is None,
            r matches Err(e) ==> e.0.recorded() is None,
    {
        let mut num_spins: isize = 0;
        loop
            invariant
                0 <= num_spins < isize::MAX,
            decreases isize::MAX - num_spins,
        {
            match self.try_lock() {
                Ok(g) => {
                    self.estimator.update(num_spins);
                    return Ok(g);
                },
                Err(TryLockError::Poisoned(e)) => {
                    return Err(e);
                },
                Err(TryLockError::WouldBlock) => {
                    num_spins = num_spins + 1;
                    let estimate = self.estimator.read();
                    if num_spins == isize::MAX || should_escalate(num_spins, estimate) {
                        return resolve_wait(raw_wait_lock(&self.mutex));
                    }
                },
            }
        }
    }

    /// Whether some holder has failed while holding the lock.  Advisory
    /// only: another thread may poison the lock right after the answer is
    /// taken.
    pub fn is_poisoned(&self) -> bool {
        raw_is_poisoned(&self.mutex)
    }

    /// Direct mutable access to the protected value.  The exclusive borrow
    /// of the lock itself proves no guard can coexist, so no locking
    /// happens; poison is still reported, with the access inside the error
    /// for a caller that accepts the risk.
    pub fn get_mut<'a>(&'a mut self) -> Result<&'a mut T, PoisonError<&'a mut T>> {
        let poisoned = raw_is_poisoned(&self.mutex);
        resolve_exclusive(poisoned, raw_get_mut(&mut self.mutex))
    }

    /// Consumes the lock, yielding the protected value.  Poison is still
    /// reported, with the value retrievable from the error payload.
    pub fn into_inner(self) -> Result<T, PoisonError<T>> {
        let AdaptiveMutex { estimator: _, mutex } = self;
        resolve_take(raw_into_inner(mutex))
    }
}

impl<T> vstd::std_specs::convert::FromSpecImpl<T> for AdaptiveMutex<T> {
    open spec fn obeys_from_spec() -> bool {
        false
    }

    open spec fn from_spec(value: T) -> AdaptiveMutex<T> {
        vstd::pervasive::arbitrary()
    }
}

impl<T> From<T> for AdaptiveMutex<T> {
    /// Equivalent to [`AdaptiveMutex::new`].
    fn from(value: T) -> (r: AdaptiveMutex<T>)
        ensures
            r.initial_estimate() == 0,
    {
        AdaptiveMutex::new(value)
    }
}

impl<T: Default> Default for AdaptiveMutex<T> {
    /// A fresh lock around the default value of `T`, with the contention
    /// estimate starting at zero.
    fn default() -> (r: AdaptiveMutex<T>)
        ensures
            r.initial_estimate() == 0,
    {
        AdaptiveMutex::new(T::default())
    }
}

} // verus!
