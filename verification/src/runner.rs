//! The clock runner: a software clock, seeded once and advanced by a
//! background task, once for every second that passes.
//!
//! The runner is the state of that task and nothing more. Whoever drives it
//! owns the waiting: mark the runner ready when the task begins, then, for
//! as long as the process lives, pause for [`TICK_INTERVAL_MILLIS`] and call
//! [`ClockHandle::advance`]. Shared between tasks, the runner stands behind
//! a lock, so that a reader sees the clock before a tick or after it and
//! never in between.

use vstd::prelude::*;
use crate::clock::{ClockTime, SoftClock};

verus! {

/// The pause, in milliseconds, between two ticks of a running clock.
pub const TICK_INTERVAL_MILLIS: u64 = 1000;

/// What a runner holds: what its clock shows, and whether its task has
/// begun.
pub struct RunnerState {
    pub clock: ClockTime,
    pub ready: bool,
}

/// A software clock together with the readiness flag of the task that
/// advances it.
#[derive(Debug, Clone, Copy)]
pub struct ClockHandle {
    clock: SoftClock,
    ready: bool,
}

impl View for ClockHandle {
    type V = RunnerState;

    closed spec fn view(&self) -> RunnerState {
        RunnerState { clock: self.clock@, ready: self.ready }
    }
}

impl ClockHandle {
    /// A runner whose clock shows the system's current time in UTC and
    /// whose task has not begun.
    pub fn start() -> (handle: ClockHandle)
        ensures
            !handle@.ready,
            handle@.clock.valid(),
    {
        ClockHandle { clock: SoftClock::from_system_time(), ready: false }
    }

    /// A runner with the given clock, whose task has not begun.
    pub fn with_clock(clock: SoftClock) -> (handle: ClockHandle)
        ensures
            handle@ == (RunnerState { clock: clock@, ready: false }),
    {
        ClockHandle { clock, ready: false }
    }

    /// Records that the task has begun. The flag is never cleared again.
    pub fn mark_ready(&mut self)
        ensures
            final(self)@ == (RunnerState { ready: true, ..old(self)@ }),
    {
        self.ready = true;
    }

    /// Records that one second has passed: ticks the clock.
    pub fn advance(&mut self)
        requires
            old(self)@.clock.step_fits(),
        ensures
            final(self)@ == (RunnerState { clock: old(self)@.clock.next(), ..old(self)@ }),
    {
        self.clock.tick();
    }

    /// Tells whether the task has begun.
    pub fn is_ready(&self) -> (ready: bool)
        ensures
            ready == self@.ready,
    {
        self.ready
    }

    /// A copy of the clock as it stands.
    pub fn get_time(&self) -> (clock: SoftClock)
        ensures
            clock@ == self@.clock,
    {
        self.clock
    }
}

} // verus!
