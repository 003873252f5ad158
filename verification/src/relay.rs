//! The decisions of the byte relay that runs once a RabbitMQ connection is
//! open: when to give up on an idle session, how long to wait for the next
//! read, and what each read means.
use vstd::prelude::*;

use crate::span::{Span, lemma_as_nanos_bound, span_of_nanos};

verus! {

/// Result of a relay session ending, so the caller can tell the client why
/// (only possible for the client side, since it's still speaking to us).
#[derive(Clone, Copy, Debug, PartialEq, Eq, Structural)]
pub enum RelayEnd {
    Eof,
    IdleTimeout { elapsed: Span, timeout: Span },
}

/// How often the relay wakes up to re-check the idle timeout: five seconds.
pub open spec fn check_interval_nanos() -> int {
    5_000_000_000
}

/// What the relay does before its next read.
#[derive(Clone, Copy, Debug, PartialEq, Eq, Structural)]
pub enum RelayWait {
    /// The session has been idle for too long and ends.
    Finish(RelayEnd),
    /// Wait at most this long for either side to send something.
    Wait(Span),
}

/// The smaller of two integers.
pub open spec fn min_int(a: int, b: int) -> int {
    if a <= b { a } else { b }
}

/// The relay's decision before a read, given the configured idle timeout
/// and the time since the last relayed byte.
pub open spec fn relay_wait_spec(idle_timeout: Option<Span>, elapsed: Span) -> RelayWait {
    match idle_timeout {
        None => RelayWait::Wait(Span { secs: 5, nanos: 0 }),
        Some(timeout) => if elapsed.as_nanos() > timeout.as_nanos() {
            RelayWait::Finish(RelayEnd::IdleTimeout { elapsed, timeout })
        } else {
            RelayWait::Wait(
                span_of_nanos(
                    min_int(timeout.as_nanos() - elapsed.as_nanos(), check_interval_nanos()),
                ),
            )
        },
    }
}

/// Decides, from the configured idle timeout and the time since the last
/// byte was relayed, whether the session ends now or how long the next
/// read may wait: never past the idle deadline, and never longer than the
/// five-second check interval.
pub fn relay_wait(idle_timeout: Option<Span>, elapsed: Span) -> (r: RelayWait)
    requires
        elapsed.wf(),
        idle_timeout matches Some(t) ==> t.wf(),
    ensures
        r == relay_wait_spec(idle_timeout, elapsed),
        r matches RelayWait::Wait(w) ==> w.wf(),
{
    let check = Span { secs: 5, nanos: 0 };
    match idle_timeout {
        None => RelayWait::Wait(check),
        Some(timeout) => {
            let e = elapsed.total_nanos();
            let t = timeout.total_nanos();
            if e > t {
                RelayWait::Finish(RelayEnd::IdleTimeout { elapsed, timeout })
            } else {
                let left = t - e;
                let wait = if left <= 5_000_000_000 { left } else { 5_000_000_000 };
                proof {
                    lemma_as_nanos_bound(timeout);
                }
                RelayWait::Wait(Span::from_nanos(wait))
            }
        },
    }
}

/// How a read from one side of the relay went.
#[derive(Clone, Copy, Debug, PartialEq, Eq, Structural)]
pub enum ReadOutcome {
    /// The read returned this many bytes (zero: the side closed).
    Read(usize),
    /// The read failed.
    Failed,
    /// No data arrived within the wait.
    TimedOut,
}

/// What the relay does after a read.
#[derive(Clone, Copy, Debug, PartialEq, Eq, Structural)]
pub enum RelayStep {
    /// Write the bytes read to the other side and note the activity.
    Forward(usize),
    /// The relay ends.
    Finish(RelayEnd),
    /// Nothing happened; go back and re-check the idle timeout.
    Continue,
}

/// The relay's answer to a read from either side: data is forwarded, a
/// closed or failed side ends the session, and a timed-out read just loops.
pub fn relay_on_read(outcome: ReadOutcome) -> (r: RelayStep)
    ensures
        match outcome {
            ReadOutcome::Read(n) => if n == 0 {
                r == RelayStep::Finish(RelayEnd::Eof)
            } else {
                r == RelayStep::Forward(n)
            },
            ReadOutcome::Failed => r == RelayStep::Finish(RelayEnd::Eof),
            ReadOutcome::TimedOut => r == RelayStep::Continue,
        },
{
    match outcome {
        ReadOutcome::Read(n) => if n == 0 {
            RelayStep::Finish(RelayEnd::Eof)
        } else {
            RelayStep::Forward(n)
        },
        ReadOutcome::Failed => RelayStep::Finish(RelayEnd::Eof),
        ReadOutcome::TimedOut => RelayStep::Continue,
    }
}

/// The relay never waits longer than the check interval, never waits past
/// the idle deadline, and ends for idleness exactly when the time since the
/// last activity exceeds the timeout; with no timeout it never ends for
/// idleness. Short of that it waits as long as it may: the whole check
/// interval, or exactly up to the deadline; and an idle end reports the
/// elapsed time and the timeout.
pub proof fn law_relay_wait_bounds(idle_timeout: Option<Span>, elapsed: Span)
    requires
        elapsed.wf(),
        idle_timeout matches Some(t) ==> t.wf(),
    ensures
        ({
            let r = relay_wait_spec(idle_timeout, elapsed);
            &&& r matches RelayWait::Wait(w) ==> w.as_nanos() <= check_interval_nanos()
            &&& r matches RelayWait::Wait(w) ==> (idle_timeout matches Some(t) ==> elapsed.as_nanos()
                + w.as_nanos() <= t.as_nanos())
            &&& (r is Finish) <==> (idle_timeout matches Some(t) && elapsed.as_nanos()
                > t.as_nanos())
            &&& idle_timeout is None ==> r == RelayWait::Wait(Span { secs: 5, nanos: 0 })
            &&& r matches RelayWait::Wait(w) ==> (w.as_nanos() == check_interval_nanos() || (
            idle_timeout matches Some(t) && elapsed.as_nanos() + w.as_nanos() == t.as_nanos()))
            &&& r matches RelayWait::Finish(e) ==> (idle_timeout matches Some(t) && e
                == RelayEnd::IdleTimeout { elapsed, timeout: t })
        }),
{
}

} // verus!
