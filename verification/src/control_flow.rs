//! How long the run loop may be driven before control comes back.

use crate::run_loop::RunLoopMode;
use crate::time::{Duration, Instant};
#[allow(unused_imports)]
use crate::time::NANOS_PER_SEC;
use vstd::prelude::*;

verus! {

/// What the event loop does once all events are handled.
#[derive(Clone, Copy, Debug, PartialEq, Eq)]
pub enum ControlFlow {
    /// Starts over at once.
    Poll,
    /// Waits for an event.
    Wait,
    /// Waits for an event, but no longer than until the given time.
    WaitUntil(Instant),
}

/// The length of a timeout in nanoseconds, if there is one.
pub open spec fn timeout_nanos(timeout: Option<Duration>) -> Option<nat> {
    match timeout {
        Some(span) => Some(span@),
        None => None,
    }
}

impl ControlFlow {
    /// How long a slice that begins at `now` may block, in nanoseconds; `None` sets no bound.
    pub open spec fn slice_bound(self, now: nat) -> Option<nat> {
        match self {
            ControlFlow::Poll => Some(0),
            ControlFlow::Wait => None,
            ControlFlow::WaitUntil(deadline) => Some(crate::time::span_since(deadline@, now)),
        }
    }

    /// The timeout for a slice of the run loop that begins at `now`.
    pub fn slice_timeout(self, now: Instant) -> (timeout: Option<Duration>)
        ensures
            timeout_nanos(timeout) == self.slice_bound(now@),
            self is Poll ==> (timeout matches Some(span) && span@ == 0),
            self is Wait ==> timeout is None,
            self matches ControlFlow::WaitUntil(deadline) ==> (timeout matches Some(span) && {
                &&& deadline@ >= now@ ==> now@ + span@ == deadline@
                &&& deadline@ <= now@ ==> span@ == 0
            }),
    {
        match self {
            ControlFlow::Poll => Some(Duration::zero()),
            ControlFlow::Wait => None,
            ControlFlow::WaitUntil(deadline) => Some(deadline.saturating_duration_since(now)),
        }
    }
}

/// Whether a driver goes on after a slice of the run loop.
#[derive(Clone, Copy, Debug, PartialEq, Eq, Structural)]
pub enum PumpStatus {
    /// No exit is requested.
    Continue,
    /// An exit with this code is requested.
    Exit(i32),
}

/// How the run loop is to be driven for one slice.
#[derive(Clone, Copy, Debug, PartialEq, Eq)]
pub struct RunSlice {
    /// The mode to run in.
    pub mode: RunLoopMode,
    /// How long to run.
    pub duration: Duration,
    /// Whether to come back early, after the first source that was handled.
    pub return_after_source_handled: bool,
}

/// The length of a slice with the given timeout, in nanoseconds: the timeout itself, or one second
/// if there is none.
pub open spec fn slice_nanos(timeout: Option<nat>) -> nat {
    match timeout {
        Some(nanos) => nanos,
        None => NANOS_PER_SEC as nat,
    }
}

/// The slice of the run loop for the given timeout.
///
/// The slice runs for its whole length, so that the observers that are called before the run loop
/// sleeps are called at least once. A slice without a bound would suppress them, so it is capped.
pub fn run_slice(timeout: Option<Duration>) -> (slice: RunSlice)
    ensures
        slice.mode == RunLoopMode::Default,
        slice.duration@ == slice_nanos(timeout_nanos(timeout)),
        timeout matches Some(span) ==> slice.duration@ == span@,
        timeout is None ==> slice.duration@ == 1_000_000_000,
        !slice.return_after_source_handled,
{
    let duration = match timeout {
        Some(timeout) => timeout,
        None => Duration::from_secs(1),
    };
    RunSlice { mode: RunLoopMode::Default, duration, return_after_source_handled: false }
}

/// A timeout counts for exactly its length: the nanoseconds of a timeout are those of its span, and
/// no timeout at all is told apart from every timeout there is, also from the empty one.
pub proof fn law_timeout_counts_its_length(timeout: Option<Duration>)
    ensures
        timeout matches Some(span) ==> timeout_nanos(timeout) == Some(span@),
        timeout is None <==> timeout_nanos(timeout) is None,
{
}

/// A pump with a timeout runs for exactly that long, whatever the timeout is, and a pump without one
/// runs for a second.
pub proof fn law_slice_is_the_timeout(timeout: Option<Duration>, nanos: nat)
    ensures
        slice_nanos(Some(nanos)) == nanos,
        slice_nanos(None) == 1_000_000_000,
        timeout matches Some(span) ==> slice_nanos(timeout_nanos(timeout)) == span@,
        timeout is None ==> slice_nanos(timeout_nanos(timeout)) == 1_000_000_000,
{
}

/// A control flow chooses the empty timeout when polling, no timeout when waiting, and otherwise the
/// time that is left until the deadline, nothing if the deadline is past.
pub proof fn law_timeout_reaches_deadline(flow: ControlFlow, now: nat)
    ensures
        flow.slice_bound(now) is None <==> flow is Wait,
        flow is Poll ==> flow.slice_bound(now) == Some(0nat),
        flow matches ControlFlow::WaitUntil(deadline) ==> (flow.slice_bound(now) matches Some(
            nanos,
        ) && {
            &&& deadline@ >= now ==> now + nanos == deadline@
            &&& deadline@ <= now ==> nanos == 0
        }),
{
}

/// A slice never outlasts what the control flow allows: polling does not block at all, waiting for
/// a time ends at that time or, if that is past, at once, and waiting without a bound comes back
/// after a second.
pub proof fn law_slice_keeps_deadline(flow: ControlFlow, now: nat)
    ensures
        flow is Poll ==> slice_nanos(flow.slice_bound(now)) == 0,
        flow is Wait ==> slice_nanos(flow.slice_bound(now)) == NANOS_PER_SEC,
        flow matches ControlFlow::WaitUntil(deadline) ==> {
            &&& deadline@ >= now ==> now + slice_nanos(flow.slice_bound(now)) == deadline@
            &&& deadline@ <= now ==> slice_nanos(flow.slice_bound(now)) == 0
        },
{
}

/// The later a slice begins, the shorter it is for one and the same control flow.
pub proof fn law_slice_shrinks_over_time(flow: ControlFlow, now: nat, later: nat)
    requires
        now <= later,
    ensures
        slice_nanos(flow.slice_bound(later)) <= slice_nanos(flow.slice_bound(now)),
{
}

} // verus!
