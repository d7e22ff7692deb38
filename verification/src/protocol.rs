//! The abstract protocol of the lock: an instance is at any instant in
//! exactly one of three conditions — unlocked, locked by a single holder, or
//! poisoned — and moves between them only through acquisitions and releases.
//!
//! Poisoning records that a holder failed before releasing normally.  It is
//! sticky: no transition clears it.  A poisoned lock still hands out guards
//! (the value stays reachable), but every acquisition on it reports the
//! poison, so using possibly inconsistent state is an explicit choice of the
//! caller, never a silent one.

use vstd::prelude::*;

verus! {

/// The instantaneous condition of one lock instance: how many live guards
/// exist (never more than one, see [`lemma_mutual_exclusion`]) and whether a
/// holder ever failed before releasing normally.
pub struct LockPhase {
    pub holders: nat,
    pub poisoned: bool,
}

/// One step in the life of a lock.
pub enum LockEvent {
    /// A successful acquisition: a guard is handed out.
    Acquire,
    /// The holder's guard is dropped in an orderly way.
    ReleaseNormal,
    /// The holder fails while holding the guard; the guard is dropped
    /// during the failure.
    ReleaseAbnormal,
}

/// A fresh lock: no holder, not poisoned.
pub open spec fn initial_phase() -> LockPhase {
    LockPhase { holders: 0, poisoned: false }
}

/// Whether an event can fire in a given phase.  An acquisition succeeds
/// only while no guard is live; a release needs a live guard.
pub open spec fn enabled(s: LockPhase, e: LockEvent) -> bool {
    match e {
        LockEvent::Acquire => s.holders == 0,
        LockEvent::ReleaseNormal => s.holders == 1,
        LockEvent::ReleaseAbnormal => s.holders == 1,
    }
}

/// The phase after one event.  A disabled event changes nothing (a blocked
/// acquisition is simply still waiting).  An abnormal release sets the
/// poison flag; no event ever clears it.
pub open spec fn step(s: LockPhase, e: LockEvent) -> LockPhase {
    if enabled(s, e) {
        match e {
            LockEvent::Acquire => LockPhase { holders: 1, ..s },
            LockEvent::ReleaseNormal => LockPhase { holders: 0, ..s },
            LockEvent::ReleaseAbnormal => LockPhase { holders: 0, poisoned: true },
        }
    } else {
        s
    }
}

/// The phase after a whole history of events, applied in order.
pub open spec fn run(s: LockPhase, history: Seq<LockEvent>) -> LockPhase
    decreases history.len(),
{
    if history.len() == 0 {
        s
    } else {
        run(step(s, history.first()), history.drop_first())
    }
}

/// Whether an acquisition in this phase reports poison to its caller.
pub open spec fn reports_poison(s: LockPhase) -> bool {
    s.poisoned
}

/// A phase the protocol can actually be in: at most one live guard.
pub open spec fn exclusive(s: LockPhase) -> bool {
    s.holders <= 1
}

/// Mutual exclusion: however many acquisitions and releases contend, a lock
/// that starts from a phase with at most one live guard never reaches a
/// phase with two.  In particular every history from a fresh lock keeps at
/// most one guard live at any instant.
pub proof fn lemma_mutual_exclusion(s: LockPhase, history: Seq<LockEvent>)
    requires
        exclusive(s),
    ensures
        exclusive(run(s, history)),
    decreases history.len(),
{
    if history.len() > 0 {
        lemma_mutual_exclusion(step(s, history.first()), history.drop_first());
    }
}

/// Poison propagation: once a holder has failed before a normal release,
/// every later phase is still poisoned, whatever else happens — so every
/// subsequent acquisition reports the poison to its caller.
pub proof fn lemma_poison_propagates(s: LockPhase, history: Seq<LockEvent>)
    requires
        s.poisoned,
    ensures
        run(s, history).poisoned,
        reports_poison(run(s, history)),
    decreases history.len(),
{
    if history.len() > 0 {
        lemma_poison_propagates(step(s, history.first()), history.drop_first());
    }
}

/// An abnormal release poisons the lock for good: after the failure of any
/// holder, every later phase reports poison.
pub proof fn lemma_poison_is_sticky(s: LockPhase, history: Seq<LockEvent>)
    requires
        enabled(s, LockEvent::ReleaseAbnormal),
    ensures
        run(step(s, LockEvent::ReleaseAbnormal), history).poisoned,
{
    lemma_poison_propagates(step(s, LockEvent::ReleaseAbnormal), history);
}

} // verus!
