//! The refresh coordinator: a single-flight guard for refilling the buffer.
//!
//! Whoever wins `try_acquire` owns the refill and must `release` when done.
//! Everybody else sees the guard held and does nothing, trusting the refill
//! in flight to restore the buffer.
//!
//! Testing and setting the flag is one indivisible step: `try_acquire` takes
//! the guard exclusively, so no two callers can both find it free.

use vstd::prelude::*;

verus! {

/// A test-and-set flag. Each call is one indivisible step on the flag.
pub struct RefreshCoordinator {
    in_flight: bool,
}

impl RefreshCoordinator {
    /// Whether a refill currently owns the guard.
    pub closed spec fn held(&self) -> bool {
        self.in_flight
    }

    /// A guard that nobody holds.
    pub fn new() -> (guard: RefreshCoordinator)
        ensures
            !guard.held(),
    {
        RefreshCoordinator { in_flight: false }
    }

    /// Takes the guard if it is free. The caller owns the refill exactly when
    /// the result is `true`; afterwards the guard is held either way.
    pub fn try_acquire(&mut self) -> (won: bool)
        ensures
            won == !old(self).held(),
            final(self).held(),
    {
        let won = !self.in_flight;
        self.in_flight = true;
        won
    }

    /// Frees the guard. Only the owner of the refill calls this.
    pub fn release(&mut self)
        ensures
            !final(self).held(),
    {
        self.in_flight = false;
    }

    /// Whether a refill currently owns the guard.
    pub fn is_held(&self) -> (held: bool)
        ensures
            held == self.held(),
    {
        self.in_flight
    }
}

/// What can happen to the guard while matches are being recorded.
pub enum RefillEvent {
    /// Some caller finds the buffer low and calls `try_acquire`; if it wins,
    /// its batch computation starts.
    Trigger,
    /// A batch computation that is under way ends and calls `release`.
    Complete,
}

/// The guard together with the number of batch computations under way.
pub struct RefillState {
    pub held: bool,
    pub running: nat,
}

/// The state in which a collection starts: guard free, nothing running.
pub open spec fn idle() -> RefillState {
    RefillState { held: false, running: 0 }
}

/// One event applied to a state, following the contracts of `try_acquire`
/// and `release`.
pub open spec fn refill_step(state: RefillState, event: RefillEvent) -> RefillState {
    match event {
        RefillEvent::Trigger => RefillState {
            held: true,
            running: if !state.held {
                state.running + 1
            } else {
                state.running
            },
        },
        RefillEvent::Complete => if state.running > 0 {
            RefillState { held: false, running: (state.running - 1) as nat }
        } else {
            state
        },
    }
}

/// The state after the given events, applied in order.
pub open spec fn refill_run(state: RefillState, events: Seq<RefillEvent>) -> RefillState
    decreases events.len(),
{
    if events.len() == 0 {
        state
    } else {
        refill_step(refill_run(state, events.drop_last()), events.last())
    }
}

/// Single flight: however triggers and completions interleave, at most one
/// batch computation is under way, and the guard is held exactly while one
/// is.
pub proof fn lemma_single_flight(events: Seq<RefillEvent>)
    ensures
        refill_run(idle(), events).running <= 1,
        refill_run(idle(), events).held <==> refill_run(idle(), events).running == 1,
    decreases events.len(),
{
    if events.len() > 0 {
        lemma_single_flight(events.drop_last());
    }
}

} // verus!
