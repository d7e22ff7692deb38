//! The contention estimator: a shared, lock-free running estimate of how
//! many spin iterations are typically needed before the lock becomes free.
//!
//! The estimate is updated incrementally as an exponential moving average
//! with smoothing factor `1 / SMOOTHING`: after observing `observed` spins,
//! the estimate moves from `current` to `current + (observed - current) / 8`,
//! with the division truncating toward zero.  Updates go through a single
//! atomic fetch-and-add, so concurrent updates may interleave; the estimate
//! is a heuristic, and a lost or stale update is tolerable by design.

use vstd::prelude::*;

use core::sync::atomic::{AtomicIsize, Ordering};

verus! {

/// Decay constant of the moving average: each update closes one eighth of
/// the gap between the current estimate and the newly observed spin count.
pub const SMOOTHING: isize = 8;

/// The increment a single update adds to the estimate: one `SMOOTHING`-th of
/// the gap between the observed spin count and the current estimate,
/// truncated toward zero.
pub open spec fn ema_delta(current: int, observed: int) -> int {
    if observed >= current {
        (observed - current) / (SMOOTHING as int)
    } else {
        -((current - observed) / (SMOOTHING as int))
    }
}

/// The estimate after one update: the current estimate plus [`ema_delta`].
pub open spec fn ema_next(current: int, observed: int) -> int {
    current + ema_delta(current, observed)
}

/// The estimate after `n` updates that each observed the same spin count.
pub open spec fn ema_iterate(start: int, observed: int, n: nat) -> int
    decreases n,
{
    if n == 0 {
        start
    } else {
        ema_next(ema_iterate(start, observed, (n - 1) as nat), observed)
    }
}

/// The absolute distance between two estimates.
pub open spec fn gap(a: int, b: int) -> int {
    if a >= b {
        a - b
    } else {
        b - a
    }
}

/// One update moves the estimate toward the observed spin count and never
/// overshoots it: the new estimate stays between the old estimate and the
/// observation.
pub proof fn lemma_ema_step_approaches(current: int, observed: int)
    ensures
        observed >= current ==> current <= ema_next(current, observed) <= observed,
        observed <= current ==> observed <= ema_next(current, observed) <= current,
{
    let g = gap(current, observed);
    assert(g >= 0);
    assert(0 <= g / (SMOOTHING as int) <= g);
}

/// How one update changes the distance to the observation: it never grows,
/// it shrinks by at least one while it is at least `SMOOTHING`, and it is
/// unchanged once it is below `SMOOTHING` (the truncated correction is zero
/// there, so the estimate has settled).
proof fn lemma_ema_step_gap(current: int, observed: int)
    ensures
        gap(ema_next(current, observed), observed) <= gap(current, observed),
        gap(current, observed) >= SMOOTHING ==> gap(ema_next(current, observed), observed) <= gap(
            current,
            observed,
        ) - 1,
        gap(current, observed) < SMOOTHING ==> gap(ema_next(current, observed), observed) == gap(
            current,
            observed,
        ),
{
    let g = gap(current, observed);
    let s = SMOOTHING as int;
    assert(0 <= g / s <= g);
    if g >= s {
        vstd::arithmetic::div_mod::lemma_div_is_ordered(s, g, s);
        assert(s / s == 1) by {
            vstd::arithmetic::div_mod::lemma_div_by_self(s);
        }
    } else {
        assert(g / s == 0) by {
            vstd::arithmetic::div_mod::lemma_basic_div(g, s);
        }
    }
}

/// Under a constant observed spin count the estimate is monotone: each
/// update is non-decreasing while the observation exceeds the starting
/// estimate and non-increasing while it is below, and the estimate never
/// passes the observation.
pub proof fn lemma_ema_run_monotone(start: int, observed: int, n: nat)
    ensures
        start <= observed ==> start <= ema_iterate(start, observed, n) <= ema_iterate(
            start,
            observed,
            n + 1,
        ) <= observed,
        start >= observed ==> observed <= ema_iterate(start, observed, n + 1) <= ema_iterate(
            start,
            observed,
            n,
        ) <= start,
    decreases n,
{
    if n == 0 {
        lemma_ema_step_approaches(start, observed);
    } else {
        lemma_ema_run_monotone(start, observed, (n - 1) as nat);
        lemma_ema_step_approaches(ema_iterate(start, observed, n), observed);
    }
}

/// After each update the distance to the observation is at most the larger
/// of `gap(start, observed) - n` and `SMOOTHING - 1`.
proof fn lemma_ema_run_gap(start: int, observed: int, n: nat)
    ensures
        gap(ema_iterate(start, observed, n), observed) <= vstd::math::max(
            gap(start, observed) - n,
            (SMOOTHING - 1) as int,
        ),
    decreases n,
{
    if n == 0 {
    } else {
        lemma_ema_run_gap(start, observed, (n - 1) as nat);
        lemma_ema_step_gap(ema_iterate(start, observed, (n - 1) as nat), observed);
    }
}

/// Convergence: once at least `gap(start, observed)` updates have each
/// observed the same spin count, the estimate has come within `SMOOTHING`
/// of the observation, and it stays there.
pub proof fn lemma_ema_run_converges(start: int, observed: int, n: nat)
    requires
        n >= gap(start, observed),
    ensures
        gap(ema_iterate(start, observed, n), observed) < SMOOTHING,
{
    lemma_ema_run_gap(start, observed, n);
}

/// Computes [`ema_delta`] without overflow for any pair of machine integers.
pub fn smoothing_delta(current: isize, observed: isize) -> (delta: isize)
    ensures
        delta as int == ema_delta(current as int, observed as int),
{
    if observed >= current {
        let width: i128 = (observed as i128) - (current as i128);
        let d: i128 = width / (SMOOTHING as i128);
        assert(0 <= d <= width);
        d as isize
    } else {
        let width: i128 = (current as i128) - (observed as i128);
        let d: i128 = width / (SMOOTHING as i128);
        assert(0 <= d <= width);
        (-d) as isize
    }
}

/// A shared spin-count estimate, read and updated lock-free through a single
/// atomic cell.  Reads may observe a stale or interleaved value under
/// concurrent updates; staleness is acceptable for a heuristic.  The
/// estimate the cell was seeded with is recorded alongside it, so that
/// constructors can promise where an estimator starts.
pub struct SpinEstimator {
    cell: AtomicIsize,
    seed: Ghost<isize>,
}

impl SpinEstimator {
    /// The estimate this estimator started from.
    pub closed spec fn initial(&self) -> isize {
        self.seed@
    }

    /// A fresh estimator holding `initial`.
    pub fn new(initial: isize) -> (r: SpinEstimator)
        ensures
            r.initial() == initial,
    {
        SpinEstimator { cell: AtomicIsize::new(initial), seed: Ghost(initial) }
    }

    /// The current estimate.  No side effects; safe to call concurrently
    /// with updates, which is why nothing can be promised of the value.
    pub fn read(&self) -> isize {
        self.cell.load(Ordering::SeqCst)
    }

    /// Moves the estimate toward `observed` by [`ema_delta`] of the gap,
    /// through one atomic fetch-and-add (which wraps on overflow), and
    /// returns the pre-update value.  Under concurrent callers the value
    /// added was computed from a possibly stale read; the estimate remains
    /// a statistical approximation, not an exact counter.
    pub fn update(&self, observed: isize) -> isize {
        let current = self.cell.load(Ordering::SeqCst);
        let delta = smoothing_delta(current, observed);
        self.cell.fetch_add(delta, Ordering::SeqCst)
    }
}

} // verus!
