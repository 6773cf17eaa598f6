//! Monotonic timestamps.
use vstd::prelude::*;

verus! {

/// Nanoseconds in a millisecond.
pub const NANOS_PER_MILLI: u64 = 1_000_000;

/// A reading of a monotonic clock, in nanoseconds since an origin that the
/// clock's owner fixes once. Only differences between readings of one clock
/// carry meaning.
#[derive(Debug, Clone, Copy, PartialEq, Eq, Structural)]
pub struct Timestamp {
    pub nanos: u64,
}

impl Timestamp {
    /// Nanoseconds from `earlier` to `self`; zero when `earlier` is the later
    /// of the two.
    pub open spec fn spec_nanos_since(self, earlier: Timestamp) -> int {
        if self.nanos >= earlier.nanos {
            self.nanos - earlier.nanos
        } else {
            0
        }
    }

    /// The reading `nanos` nanoseconds after the origin.
    pub fn from_nanos(nanos: u64) -> (r: Timestamp)
        ensures
            r.nanos == nanos,
    {
        Timestamp { nanos }
    }

    /// The reading `millis` milliseconds after the origin.
    pub fn from_millis(millis: u64) -> (r: Timestamp)
        requires
            millis * NANOS_PER_MILLI <= u64::MAX,
        ensures
            r.nanos == millis * NANOS_PER_MILLI,
    {
        Timestamp { nanos: millis * NANOS_PER_MILLI }
    }

    /// Elapsed nanoseconds since `earlier`, saturating at zero.
    pub fn nanos_since(&self, earlier: &Timestamp) -> (r: u64)
        ensures
            r as int == self.spec_nanos_since(*earlier),
    {
        if self.nanos >= earlier.nanos {
            self.nanos - earlier.nanos
        } else {
            0
        }
    }
}

} // verus!
