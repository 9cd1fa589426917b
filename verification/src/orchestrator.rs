//! The orchestrator: waits for the clock runner, asks the three sources in
//! turn, and reports what they agree on or, failing that, what the software
//! clock shows.
//!
//! Waiting and asking are the caller's part. [`next_step`] says what to do
//! next from what has been answered so far; the caller does it, adds the
//! answer to the list, and asks again until the step is a report.

use vstd::prelude::*;
use crate::clock::ClockTime;
use crate::reconcile::{reconcile, reconciled};
use crate::runner::{ClockHandle, RunnerState};
use crate::sample::TimestampSample;

verus! {

/// The pause, in milliseconds, between two looks at a runner that is not
/// ready yet.
pub const READY_POLL_MILLIS: u64 = 10;

/// One of the three time sources. Their order, A then B then C, is the order
/// in which they are asked and in which the reconciler takes their answers.
#[derive(Debug, Clone, Copy, PartialEq, Eq, Structural)]
pub enum Source {
    A,
    B,
    C,
}

impl Source {
    /// Where the source is reached.
    pub open spec fn address(self) -> Seq<char> {
        match self {
            Source::A => "https://worldtimeapi.org/api/timezone/Europe/London"@,
            Source::B => "https://timeapi.io/api/Time/current/zone?timeZone=Europe/London"@,
            Source::C => "http://worldclockapi.com/api/json/utc/now"@,
        }
    }

    /// Where the source is reached.
    pub fn url(&self) -> (url: &'static str)
        ensures
            url@ == self.address(),
    {
        match self {
            Source::A => "https://worldtimeapi.org/api/timezone/Europe/London",
            Source::B => "https://timeapi.io/api/Time/current/zone?timeZone=Europe/London",
            Source::C => "http://worldclockapi.com/api/json/utc/now",
        }
    }
}

/// The timestamp to report, and where it comes from.
#[derive(Debug, Clone, Copy, PartialEq, Eq, Structural)]
pub enum Resolution {
    /// The sources agreed on this timestamp.
    Reconciled(TimestampSample),
    /// The sources did not agree: this is what the software clock showed.
    Fallback(TimestampSample),
}

impl Resolution {
    /// The timestamp, wherever it comes from.
    pub open spec fn time(self) -> TimestampSample {
        match self {
            Resolution::Reconciled(t) => t,
            Resolution::Fallback(t) => t,
        }
    }

    /// The timestamp, wherever it comes from.
    pub fn timestamp(&self) -> (t: TimestampSample)
        ensures
            t == self.time(),
    {
        match self {
            Resolution::Reconciled(t) => *t,
            Resolution::Fallback(t) => *t,
        }
    }

    /// Tells whether the timestamp is the software clock's.
    pub fn used_fallback(&self) -> (fallback: bool)
        ensures
            fallback == (*self is Fallback),
    {
        match self {
            Resolution::Reconciled(_) => false,
            Resolution::Fallback(_) => true,
        }
    }
}

/// The timestamp to report when the software clock shows `clock` and the
/// sources answered `a`, `b` and `c`: what the answers agree on, else what
/// the clock shows.
pub open spec fn resolved(
    clock: ClockTime,
    a: Option<TimestampSample>,
    b: Option<TimestampSample>,
    c: Option<TimestampSample>,
) -> Resolution {
    match reconciled(a, b, c) {
        Some(t) => Resolution::Reconciled(t),
        None => Resolution::Fallback(clock.to_minute()),
    }
}

/// Decides what to report from the answers of sources A, B and C, falling
/// back on the runner's clock where they do not agree.
pub fn get_date_time(
    fallback_clock: &ClockHandle,
    time_a: Option<TimestampSample>,
    time_b: Option<TimestampSample>,
    time_c: Option<TimestampSample>,
) -> (resolution: Resolution)
    ensures
        resolution == resolved(fallback_clock@.clock, time_a, time_b, time_c),
{
    match reconcile(time_a, time_b, time_c) {
        Some(t) => Resolution::Reconciled(t),
        None => {
            let fallback = fallback_clock.get_time();
            Resolution::Fallback(fallback.timestamp())
        },
    }
}

/// What the caller of [`next_step`] is to do.
#[derive(Debug, Clone, Copy, PartialEq, Eq, Structural)]
pub enum Step {
    /// Pause for so many milliseconds, then ask again.
    Wait { millis: u64 },
    /// Ask this source, add its answer to the list, then ask again.
    Fetch { source: Source },
    /// Nothing is left to do: this is the outcome.
    Report { resolution: Resolution },
}

/// The step that follows when the runner is in state `runner` and the
/// sources have given `answers` so far.
///
/// Before the first source is asked the runner must be ready. Then the
/// sources are asked one after the other, A first. Once three answers are
/// in, they are resolved against the runner's clock.
pub open spec fn planned(runner: RunnerState, answers: Seq<Option<TimestampSample>>) -> Step {
    if answers.len() == 0 && !runner.ready {
        Step::Wait { millis: READY_POLL_MILLIS }
    } else if answers.len() == 0 {
        Step::Fetch { source: Source::A }
    } else if answers.len() == 1 {
        Step::Fetch { source: Source::B }
    } else if answers.len() == 2 {
        Step::Fetch { source: Source::C }
    } else {
        Step::Report { resolution: resolved(runner.clock, answers[0], answers[1], answers[2]) }
    }
}

/// Says what to do next, given the runner and the answers received so far,
/// in the order in which the sources were asked.
pub fn next_step(fallback_clock: &ClockHandle, answers: &Vec<Option<TimestampSample>>) -> (step:
    Step)
    ensures
        step == planned(fallback_clock@, answers@),
{
    let count: usize = answers.len();
    if count == 0 && !fallback_clock.is_ready() {
        Step::Wait { millis: READY_POLL_MILLIS }
    } else if count == 0 {
        Step::Fetch { source: Source::A }
    } else if count == 1 {
        Step::Fetch { source: Source::B }
    } else if count == 2 {
        Step::Fetch { source: Source::C }
    } else {
        Step::Report {
            resolution: get_date_time(fallback_clock, answers[0], answers[1], answers[2]),
        }
    }
}

/// The report is the software clock's exactly when the sources do not
/// agree, and then it is what the clock shows, to the minute. A report that
/// the sources agreed on is marked as such, so the two cannot be mistaken
/// for each other.
pub proof fn lemma_fallback_exactly_without_agreement(
    clock: ClockTime,
    a: Option<TimestampSample>,
    b: Option<TimestampSample>,
    c: Option<TimestampSample>,
)
    ensures
        resolved(clock, a, b, c) is Fallback <==> reconciled(a, b, c) is None,
        reconciled(a, b, c) is None ==> resolved(clock, a, b, c) == Resolution::Fallback(
            clock.to_minute(),
        ),
        reconciled(a, b, c) matches Some(t) ==> resolved(clock, a, b, c) == Resolution::Reconciled(
            t,
        ),
        a is None || b is None || c is None ==> resolved(clock, a, b, c) is Fallback,
{
}

} // verus!
