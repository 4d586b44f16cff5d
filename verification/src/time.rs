//! Points in time and spans of time, as the client counts them.
//!
//! Time is counted in nanoseconds from a moment that the caller fixes once,
//! such as the moment at which it made its client. The clock of the caller
//! is read in 64 bits. Points in time reach further than the clock does: ten
//! minutes past the last reading of the clock.

use vstd::prelude::*;

verus! {

/// The last point in time: ten minutes past the last reading of a clock of
/// 64 bits, in nanoseconds.
pub const LAST_INSTANT_NANOS: u128 = 18_446_744_073_709_551_615 + 600_000_000_000;

/// A point in time: the nanoseconds that have passed since the caller's first
/// moment.
#[derive(Clone, Copy, Debug, PartialEq, Eq, Structural, PartialOrd, Ord, Hash)]
pub struct Instant {
    pub nanos: u128,
}

/// The present moment as the caller's clock reads it: the nanoseconds that
/// have passed since the caller's first moment.
#[derive(Clone, Copy, Debug, PartialEq, Eq, Structural, PartialOrd, Ord, Hash)]
pub struct Now {
    pub nanos: u64,
}

/// A span of time in whole seconds.
#[derive(Clone, Copy, Debug, PartialEq, Eq, Structural, PartialOrd, Ord, Hash)]
pub struct Duration {
    pub secs: u64,
}

/// The nanoseconds in `secs` seconds.
pub open spec fn nanos_in(secs: u64) -> int {
    secs * 1_000_000_000
}

/// The point in time at which the clock read `now`.
pub open spec fn instant_of(now: Now) -> Instant {
    Instant { nanos: now.nanos as u128 }
}

/// Whether `span` after `now` is a point in time.
pub open spec fn in_range(now: Now, span: Duration) -> bool {
    now.nanos + nanos_in(span.secs) <= LAST_INSTANT_NANOS
}

/// The point in time `span` after `now`.
pub open spec fn instant_after(now: Now, span: Duration) -> Instant {
    Instant { nanos: (now.nanos + nanos_in(span.secs)) as u128 }
}

/// Ten minutes after any reading of the clock is a point in time, and so is
/// every shorter span after it.
pub proof fn lemma_ten_minutes_are_in_range(now: Now, span: Duration)
    requires
        span.secs <= 600,
    ensures
        in_range(now, span),
{
}

impl Duration {
    /// The span of `secs` seconds.
    pub fn from_secs(secs: u64) -> (span: Self)
        ensures
            span.secs == secs,
    {
        Duration { secs }
    }

    /// The span in seconds.
    pub fn as_secs(&self) -> (secs: u64)
        ensures
            secs == self.secs,
    {
        self.secs
    }
}

impl Instant {
    /// The point in time `nanos` nanoseconds after the caller's first moment.
    pub fn from_nanos(nanos: u128) -> (instant: Self)
        ensures
            instant.nanos == nanos,
    {
        Instant { nanos }
    }

    /// Whether this point in time lies after `other`.
    pub fn is_after(&self, other: Instant) -> (after: bool)
        ensures
            after == (self.nanos > other.nanos),
    {
        self.nanos > other.nanos
    }
}

impl Now {
    /// The reading `nanos` nanoseconds after the caller's first moment.
    pub fn from_nanos(nanos: u64) -> (now: Self)
        ensures
            now.nanos == nanos,
    {
        Now { nanos }
    }

    /// The point in time of the reading.
    pub fn instant(&self) -> (instant: Instant)
        ensures
            instant == instant_of(*self),
    {
        Instant { nanos: self.nanos as u128 }
    }

    /// The point in time `span` after the reading, unless it lies past the
    /// last point in time.
    pub fn checked_add(&self, span: Duration) -> (sum: Option<Instant>)
        ensures
            in_range(*self, span) ==> sum == Some(instant_after(*self, span)),
            !in_range(*self, span) ==> sum is None,
    {
        let nanos: u128 = self.nanos as u128 + (span.secs as u128) * 1_000_000_000;
        if nanos <= LAST_INSTANT_NANOS {
            Some(Instant { nanos })
        } else {
            None
        }
    }
}

} // verus!
