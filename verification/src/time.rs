//! Durations, and the monotonic clock they are measured on.

use vstd::prelude::*;

verus! {

/// Nanoseconds in one second.
pub const NANOS_PER_SEC: u128 = 1_000_000_000;

/// Nanoseconds in one millisecond.
pub const NANOS_PER_MILLI: u128 = 1_000_000;

/// The longest duration: `u64::MAX` seconds and 999,999,999 nanoseconds.
pub const MAX_NANOS: u128 = 18_446_744_073_709_551_615_999_999_999;

/// A span of time with nanosecond resolution.
///
/// Its range is that of the standard duration: from zero to [`MAX_NANOS`].
/// Instants are durations too: each counts from the start of the invocation
/// that it belongs to.
#[derive(Clone, Copy, Debug, PartialEq, Eq, Structural)]
pub struct Duration {
    nanos: u128,
}

impl Duration {
    /// No duration is longer than [`MAX_NANOS`].
    #[verifier::type_invariant]
    pub closed spec fn in_range(self) -> bool {
        self.nanos <= MAX_NANOS
    }

    /// The length in nanoseconds.
    pub closed spec fn nanos(self) -> nat {
        self.nanos as nat
    }

    /// Builds a duration of `secs` seconds and `nanos` nanoseconds.
    pub fn new(secs: u64, nanos: u32) -> (duration: Self)
        requires
            nanos < NANOS_PER_SEC,
        ensures
            duration.nanos() == secs * NANOS_PER_SEC + nanos,
    {
        Duration { nanos: secs as u128 * NANOS_PER_SEC + nanos as u128 }
    }

    /// Builds a duration of whole seconds.
    pub fn from_secs(secs: u64) -> (duration: Self)
        ensures
            duration.nanos() == secs * NANOS_PER_SEC,
    {
        Duration { nanos: secs as u128 * NANOS_PER_SEC }
    }

    /// Builds a duration of whole milliseconds.
    pub fn from_millis(millis: u64) -> (duration: Self)
        ensures
            duration.nanos() == millis * NANOS_PER_MILLI,
    {
        Duration { nanos: millis as u128 * NANOS_PER_MILLI }
    }

    /// The longest duration.
    pub fn max() -> (duration: Self)
        ensures
            duration.nanos() == MAX_NANOS,
    {
        Duration { nanos: MAX_NANOS }
    }

    /// The length in nanoseconds.
    pub fn as_nanos(self) -> (nanos: u128)
        ensures
            nanos == self.nanos(),
            nanos <= MAX_NANOS,
    {
        proof {
            use_type_invariant(&self);
        }
        self.nanos
    }

    /// The length in whole milliseconds.
    pub fn as_millis(self) -> (millis: u128)
        ensures
            millis == self.nanos() / NANOS_PER_MILLI as nat,
    {
        self.nanos / NANOS_PER_MILLI
    }

    /// The number of whole seconds.
    pub fn as_secs(self) -> (secs: u64)
        ensures
            secs == self.nanos() / NANOS_PER_SEC as nat,
    {
        proof {
            use_type_invariant(&self);
        }
        (self.nanos / NANOS_PER_SEC) as u64
    }

    /// The nanoseconds beyond the last whole second.
    pub fn subsec_nanos(self) -> (nanos: u32)
        ensures
            nanos == self.nanos() % NANOS_PER_SEC as nat,
            nanos < NANOS_PER_SEC,
    {
        (self.nanos % NANOS_PER_SEC) as u32
    }

    /// Whether this duration is at least as long as `other`.
    pub fn at_least(self, other: Self) -> (longer: bool)
        ensures
            longer == (self.nanos() >= other.nanos()),
    {
        self.nanos >= other.nanos
    }

    /// The shorter of two durations.
    pub fn min(self, other: Self) -> (shorter: Self)
        ensures
            shorter == if self.nanos() <= other.nanos() {
                self
            } else {
                other
            },
    {
        if self.nanos <= other.nanos {
            self
        } else {
            other
        }
    }

    /// The sum, or `None` where it exceeds the longest duration.
    pub fn checked_add(self, other: Self) -> (sum: Option<Self>)
        ensures
            sum is Some <==> self.nanos() + other.nanos() <= MAX_NANOS,
            sum matches Some(total) ==> total.nanos() == self.nanos() + other.nanos(),
    {
        proof {
            use_type_invariant(&self);
            use_type_invariant(&other);
        }
        let total: u128 = self.nanos + other.nanos;
        if total <= MAX_NANOS {
            Some(Duration { nanos: total })
        } else {
            None
        }
    }

    /// What is left of this duration after `other`: zero where `other` is longer.
    pub fn saturating_sub(self, other: Self) -> (rest: Self)
        ensures
            rest.nanos() == if self.nanos() >= other.nanos() {
                (self.nanos() - other.nanos()) as nat
            } else {
                0
            },
    {
        proof {
            use_type_invariant(&self);
        }
        if self.nanos >= other.nanos {
            Duration { nanos: self.nanos - other.nanos }
        } else {
            Duration { nanos: 0 }
        }
    }
}

/// Milliseconds of a duration, at most `u64::MAX`.
pub fn duration_millis(duration: Duration) -> (millis: u64)
    ensures
        millis == if duration.nanos() / NANOS_PER_MILLI as nat <= u64::MAX {
            duration.nanos() / NANOS_PER_MILLI as nat
        } else {
            u64::MAX as nat
        },
{
    let millis: u128 = duration.as_millis();
    if millis <= u64::MAX as u128 {
        millis as u64
    } else {
        u64::MAX
    }
}

/// The standard library's reading of the monotonic clock.
#[verifier::external_type_specification]
#[verifier::external_body]
pub struct ExInstant(std::time::Instant);

/// `std::time::Instant::now`: a reading of the monotonic clock. It depends on the time,
/// so nothing is claimed of it.
#[verifier::external_body]
pub(crate) fn monotonic_now() -> (now: std::time::Instant) {
    std::time::Instant::now()
}

/// `std::time::Instant::checked_add`: whether the clock can represent the instant that lies
/// `secs` seconds and `nanos` nanoseconds after `start`. It can represent `start` itself,
/// which lies no time after `start`; how far it reaches beyond that is the machine's, and
/// nothing is claimed of it. A standard duration of that many nanoseconds is built for the
/// call, which `requires` keeps from carrying over.
#[verifier::external_body]
pub(crate) fn clock_can_reach(start: &std::time::Instant, secs: u64, nanos: u32) -> (reachable: bool)
    requires
        nanos < NANOS_PER_SEC,
    ensures
        secs == 0 && nanos == 0 ==> reachable,
{
    start.checked_add(std::time::Duration::new(secs, nanos)).is_some()
}

/// Whether `now` is a reading that the monotonic clock gave.
pub open(crate) spec fn is_reading(now: std::time::Instant) -> bool {
    call_ensures(monotonic_now, (), now)
}

/// A reading is one that the monotonic clock gave.
pub(crate) proof fn law_readings_come_from_the_clock(now: std::time::Instant)
    requires
        is_reading(now),
    ensures
        call_ensures(monotonic_now, (), now),
{
}

/// Whether `reachable` is what the monotonic clock answered when it was asked for the instant
/// `duration` after `start`.
pub open(crate) spec fn clock_answered(
    start: std::time::Instant,
    duration: Duration,
    reachable: bool,
) -> bool {
    exists|secs: u64, nanos: u32|
        {
            &&& #[trigger] call_ensures(clock_can_reach, (&start, secs, nanos), reachable)
            &&& secs * NANOS_PER_SEC + nanos == duration.nanos()
            &&& nanos < NANOS_PER_SEC
        }
}

/// The clock answers for the very instant that was asked for, and for no other: its answer is
/// one that it gave when asked for an instant exactly `duration` after `start`. It always
/// reaches `start` itself.
pub(crate) proof fn law_the_clock_answers_for_the_instant(
    start: std::time::Instant,
    duration: Duration,
    reachable: bool,
)
    requires
        clock_answered(start, duration, reachable),
    ensures
        exists|secs: u64, nanos: u32| #[trigger]
            call_ensures(clock_can_reach, (&start, secs, nanos), reachable) && secs * NANOS_PER_SEC
                + nanos == duration.nanos() && nanos < NANOS_PER_SEC,
        duration.nanos() == 0 ==> reachable,
{
    let (secs, nanos) = choose|secs: u64, nanos: u32|
        {
            &&& #[trigger] call_ensures(clock_can_reach, (&start, secs, nanos), reachable)
            &&& secs * NANOS_PER_SEC + nanos == duration.nanos()
            &&& nanos < NANOS_PER_SEC
        };
    assert(call_ensures(clock_can_reach, (&start, secs, nanos), reachable));
}

/// Whether the monotonic clock can represent the instant `duration` after `start`.
///
/// It can represent `start` itself. How far it reaches beyond that belongs to the machine;
/// the callers treat either answer.
pub(crate) fn representable_after(start: &std::time::Instant, duration: Duration) -> (representable:
    bool)
    ensures
        duration.nanos() == 0 ==> representable,
        clock_answered(*start, duration, representable),
{
    clock_can_reach(start, duration.as_secs(), duration.subsec_nanos())
}

} // verus!
