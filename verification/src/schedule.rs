//! How long the supervisor waits, and until when it cleans up.

use vstd::prelude::*;

use crate::time::Duration;
#[allow(unused_imports)]
use crate::time::{MAX_NANOS, NANOS_PER_MILLI};

verus! {

/// Time that cleanup may take, in milliseconds.
pub const CLEANUP_BUDGET_MILLIS: u64 = 2_000;

/// Cleanup time that a caller may see, in milliseconds.
pub const CLEANUP_ALLOWANCE_MILLIS: u64 = 2_100;

/// Longest single wait, in milliseconds.
pub const EVENT_QUANTUM_MILLIS: u64 = 10;

/// Time that cleanup may take, in nanoseconds.
pub open spec fn budget_nanos() -> nat {
    (CLEANUP_BUDGET_MILLIS * NANOS_PER_MILLI) as nat
}

/// Longest single wait, in nanoseconds.
pub open spec fn quantum_nanos() -> nat {
    (EVENT_QUANTUM_MILLIS * NANOS_PER_MILLI) as nat
}

/// Time that cleanup may take.
pub fn cleanup_budget() -> (budget: Duration)
    ensures
        budget.nanos() == budget_nanos(),
{
    Duration::from_millis(CLEANUP_BUDGET_MILLIS)
}

/// Cleanup time that a caller may see.
pub fn cleanup_allowance() -> (allowance: Duration)
    ensures
        allowance.nanos() == CLEANUP_ALLOWANCE_MILLIS * NANOS_PER_MILLI,
{
    Duration::from_millis(CLEANUP_ALLOWANCE_MILLIS)
}

/// When cleanup that starts at `now` has to be over, in nanoseconds: one budget later, or at
/// once where no such instant exists.
pub open spec fn cleanup_end(now: nat) -> nat {
    if now + budget_nanos() <= MAX_NANOS {
        now + budget_nanos()
    } else {
        now
    }
}

/// When cleanup that starts at `now` has to be over.
pub fn cleanup_deadline(now: Duration) -> (end: Duration)
    ensures
        end.nanos() == cleanup_end(now.nanos()),
{
    match now.checked_add(cleanup_budget()) {
        Some(end) => end,
        None => now,
    }
}

/// The nanoseconds left at `now` until `instant`.
pub open spec fn left_until(instant: nat, now: nat) -> nat {
    if instant >= now {
        (instant - now) as nat
    } else {
        0
    }
}

/// The instant, if there is one, in nanoseconds since the start.
pub open spec fn moment(instant: Option<Duration>) -> Option<nat> {
    match instant {
        Some(end) => Some(end.nanos()),
        None => None,
    }
}

/// The shorter of a wait and the time left until an instant, if there is one.
pub open spec fn capped(wait: nat, instant: Option<nat>, now: nat) -> nat {
    match instant {
        Some(end) => if left_until(end, now) < wait {
            left_until(end, now)
        } else {
            wait
        },
        None => wait,
    }
}

/// How long to wait, in nanoseconds: one quantum, but not beyond the deadline nor beyond the
/// end of cleanup.
pub open spec fn wait_nanos(deadline: Option<nat>, cleanup: Option<nat>, now: nat) -> nat {
    capped(capped(quantum_nanos(), deadline, now), cleanup, now)
}

/// How long to wait at `now`.
pub fn wait_quantum(deadline: Option<Duration>, cleanup: Option<Duration>, now: Duration) -> (wait:
    Duration)
    ensures
        wait.nanos() == wait_nanos(moment(deadline), moment(cleanup), now.nanos()),
{
    let quantum = Duration::from_millis(EVENT_QUANTUM_MILLIS);
    let until_deadline = match deadline {
        Some(end) => end.saturating_sub(now).min(quantum),
        None => quantum,
    };
    match cleanup {
        Some(end) => until_deadline.min(end.saturating_sub(now)),
        None => until_deadline,
    }
}

/// How long to wait at `now`, as the nanoseconds of a timeout below one second.
pub fn poll_timeout(deadline: Option<Duration>, cleanup: Option<Duration>, now: Duration) -> (nanos:
    u32)
    ensures
        nanos == wait_nanos(moment(deadline), moment(cleanup), now.nanos()),
        nanos <= quantum_nanos(),
{
    wait_quantum(deadline, cleanup, now).as_nanos() as u32
}

/// How long things take: a wait ten milliseconds at most, cleanup two seconds, of which a caller
/// may see a tenth of a second more. Cleanup ends two seconds after it starts, unless the clock
/// does not go that far.
pub proof fn law_budgets_are_fixed(now: nat)
    ensures
        quantum_nanos() == 10_000_000,
        budget_nanos() == 2_000_000_000,
        CLEANUP_ALLOWANCE_MILLIS * NANOS_PER_MILLI == 2_100_000_000,
        cleanup_end(now) == if now + 2_000_000_000 <= MAX_NANOS {
            now + 2_000_000_000
        } else {
            now
        },
{
}

/// A wait is as long as it may be: the shortest of ten milliseconds and of the times that are
/// left until the deadline and until the end of cleanup, where there are such.
pub proof fn law_waits_are_as_long_as_they_may_be(
    deadline: Option<nat>,
    cleanup: Option<nat>,
    now: nat,
)
    ensures
        ({
            let wait = wait_nanos(deadline, cleanup, now);
            &&& wait <= 10_000_000
            &&& deadline matches Some(end) ==> wait <= if end >= now {
                end - now
            } else {
                0
            }
            &&& cleanup matches Some(end) ==> wait <= if end >= now {
                end - now
            } else {
                0
            }
            &&& {
                ||| wait == 10_000_000
                ||| deadline matches Some(end) && (wait == end - now || (end < now && wait == 0))
                ||| cleanup matches Some(end) && (wait == end - now || (end < now && wait == 0))
            }
        }),
{
}

/// A deadline has passed exactly from the instant on at which it lies; without one none passes.
pub proof fn law_deadlines_pass_on_time(deadline: Option<Duration>, now: Duration)
    ensures
        deadline matches Some(end) ==> (has_elapsed(deadline, now) <==> now.nanos() >= end.nanos()),
        deadline is None ==> !has_elapsed(deadline, now),
{
}

/// Whether the deadline has passed at `now`.
pub open spec fn has_elapsed(deadline: Option<Duration>, now: Duration) -> bool {
    deadline matches Some(end) && now.nanos() >= end.nanos()
}

/// Whether the deadline has passed at `now`.
pub fn deadline_elapsed(deadline: Option<Duration>, now: Duration) -> (elapsed: bool)
    ensures
        elapsed == has_elapsed(deadline, now),
{
    match deadline {
        Some(end) => now.at_least(end),
        None => false,
    }
}

} // verus!
