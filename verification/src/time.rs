//! Time quantities as plain integers.
//!
//! Durations and instants are held as nanosecond counts so that contracts can
//! speak of them arithmetically. Instants are readings of a monotonic clock that
//! the caller supplies.

use vstd::prelude::*;

verus! {

/// `a * b`, or `u64::MAX` when the product does not fit.
pub fn sat_mul(a: u64, b: u64) -> (r: u64)
    ensures
        r == if a * b <= u64::MAX { a * b } else { u64::MAX as int },
{
    match a.checked_mul(b) {
        Some(p) => p,
        None => u64::MAX,
    }
}

/// Nanoseconds in one microsecond, millisecond and second.
pub const NANOS_PER_MILLI: u64 = 1_000_000;
pub const NANOS_PER_SEC: u64 = 1_000_000_000;

/// A span of time with nanosecond resolution.
#[derive(Debug, Clone, Copy, PartialEq, Eq, Structural, PartialOrd, Ord)]
pub struct Duration {
    pub nanos: u64,
}

/// A reading of a monotonic clock, in nanoseconds since an arbitrary origin.
#[derive(Debug, Clone, Copy, PartialEq, Eq, Structural, PartialOrd, Ord)]
pub struct Instant {
    pub nanos: u64,
}

impl Duration {
    /// A duration of exactly `nanos` nanoseconds.
    pub fn from_nanos(nanos: u64) -> (d: Duration)
        ensures
            d.nanos == nanos,
    {
        Duration { nanos }
    }

    /// A duration of `millis` milliseconds; saturates at the largest duration.
    pub fn from_millis(millis: u64) -> (d: Duration)
        ensures
            d.nanos == if millis * NANOS_PER_MILLI <= u64::MAX {
                millis * NANOS_PER_MILLI
            } else {
                u64::MAX as int
            },
    {
        Duration { nanos: sat_mul(millis, NANOS_PER_MILLI) }
    }

    /// A duration of `secs` seconds; saturates at the largest duration.
    pub fn from_secs(secs: u64) -> (d: Duration)
        ensures
            d.nanos == if secs * NANOS_PER_SEC <= u64::MAX {
                secs * NANOS_PER_SEC
            } else {
                u64::MAX as int
            },
    {
        Duration { nanos: sat_mul(secs, NANOS_PER_SEC) }
    }

    /// The whole number of nanoseconds.
    pub fn as_nanos(&self) -> (n: u64)
        ensures
            n == self.nanos,
    {
        self.nanos
    }

    /// The whole number of milliseconds (truncated).
    pub fn as_millis(&self) -> (n: u64)
        ensures
            n == self.nanos / NANOS_PER_MILLI,
    {
        self.nanos / NANOS_PER_MILLI
    }

    pub fn is_zero(&self) -> (b: bool)
        ensures
            b == (self.nanos == 0),
    {
        self.nanos == 0
    }

    /// The smaller of two durations.
    pub fn min(self, other: Duration) -> (d: Duration)
        ensures
            d.nanos == if self.nanos <= other.nanos { self.nanos } else { other.nanos },
    {
        if self.nanos <= other.nanos {
            self
        } else {
            other
        }
    }

    /// `self * factor`, saturating at the largest duration.
    pub fn saturating_mul(self, factor: u32) -> (d: Duration)
        ensures
            d.nanos == if self.nanos * factor <= u64::MAX {
                self.nanos * factor
            } else {
                u64::MAX as int
            },
    {
        Duration { nanos: sat_mul(self.nanos, factor as u64) }
    }

    /// `self - other`, or `None` when `other` is longer.
    pub fn checked_sub(self, other: Duration) -> (d: Option<Duration>)
        ensures
            match d {
                Some(r) => other.nanos <= self.nanos && r.nanos == self.nanos - other.nanos,
                None => other.nanos > self.nanos,
            },
    {
        if other.nanos <= self.nanos {
            Some(Duration { nanos: self.nanos - other.nanos })
        } else {
            None
        }
    }
}

impl Instant {
    /// The instant `d` after `self`, saturating at the end of the clock.
    pub fn saturating_add(self, d: Duration) -> (r: Instant)
        ensures
            r.nanos == if self.nanos + d.nanos <= u64::MAX {
                self.nanos + d.nanos
            } else {
                u64::MAX as int
            },
    {
        Instant { nanos: self.nanos.saturating_add(d.nanos) }
    }

    /// How long from `earlier` until `self`; zero when `earlier` is later.
    pub fn saturating_duration_since(self, earlier: Instant) -> (d: Duration)
        ensures
            d.nanos == if earlier.nanos <= self.nanos { self.nanos - earlier.nanos } else { 0 },
    {
        Duration { nanos: self.nanos.saturating_sub(earlier.nanos) }
    }

    /// The earlier of two instants.
    pub fn min(self, other: Instant) -> (r: Instant)
        ensures
            r.nanos == if self.nanos <= other.nanos { self.nanos } else { other.nanos },
    {
        if self.nanos <= other.nanos {
            self
        } else {
            other
        }
    }
}

} // verus!
