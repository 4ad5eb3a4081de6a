//! Readings of a monotonic clock.

use vstd::prelude::*;

verus! {

/// Nanoseconds in a millisecond.
pub const NANOS_PER_MILLI: u64 = 1_000_000;

/// A reading of a monotonic clock: the nanoseconds that have passed since the
/// clock's origin.
#[derive(Clone, Copy, Debug, PartialEq, Eq, Structural)]
pub struct Instant {
    pub nanos: u64,
}

impl Instant {
    /// The nanoseconds from `earlier` to this instant, or zero where `earlier` is
    /// in fact the later one.
    pub open spec fn since(self, earlier: Instant) -> int {
        if self.nanos >= earlier.nanos {
            self.nanos - earlier.nanos
        } else {
            0
        }
    }

    pub fn from_nanos(nanos: u64) -> (instant: Instant)
        ensures
            instant.nanos == nanos,
    {
        Instant { nanos }
    }

    /// The instant `millis` milliseconds after the clock's origin; `None` where
    /// the nanoseconds do not fit 64 bits.
    pub fn from_millis(millis: u64) -> (instant: Option<Instant>)
        ensures
            instant is Some <==> millis * NANOS_PER_MILLI <= u64::MAX,
            instant matches Some(i) ==> i.nanos == millis * NANOS_PER_MILLI,
    {
        match millis.checked_mul(NANOS_PER_MILLI) {
            Some(nanos) => Some(Instant { nanos }),
            None => None,
        }
    }

    /// The nanoseconds from `earlier` to this instant, zero if `earlier` is later.
    pub fn duration_since(&self, earlier: Instant) -> (nanos: u64)
        ensures
            nanos == self.since(earlier),
    {
        if self.nanos >= earlier.nanos {
            self.nanos - earlier.nanos
        } else {
            0
        }
    }
}

} // verus!
