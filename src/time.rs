use vstd::prelude::*;

verus! {

/// Largest number of nanoseconds a `Duration` or an `Instant` can hold.
pub const MAX_NANOS: u64 = 0xffff_ffff_ffff_ffff;

/// Nanoseconds in one millisecond.
pub const NANOS_PER_MILLI: u64 = 1_000_000;

/// A non-negative span of time, counted in whole nanoseconds.
#[derive(Clone, Copy, Debug, PartialEq, Eq, Structural, PartialOrd, Ord, Hash)]
pub struct Duration {
    pub nanos: u64,
}

impl View for Duration {
    type V = nat;

    open spec fn view(&self) -> nat {
        self.nanos as nat
    }
}

impl Duration {
    /// The empty span.
    pub fn zero() -> (d: Duration)
        ensures
            d@ == 0,
    {
        Duration { nanos: 0 }
    }

    pub fn from_nanos(nanos: u64) -> (d: Duration)
        ensures
            d@ == nanos,
    {
        Duration { nanos }
    }

    pub fn from_millis(millis: u64) -> (d: Duration)
        requires
            millis * NANOS_PER_MILLI <= MAX_NANOS,
        ensures
            d@ == millis * NANOS_PER_MILLI,
    {
        Duration { nanos: millis * NANOS_PER_MILLI }
    }

    pub fn as_nanos(&self) -> (n: u64)
        ensures
            n == self@,
    {
        self.nanos
    }

    /// The sum of two spans.
    pub fn plus(self, other: Duration) -> (d: Duration)
        requires
            self@ + other@ <= MAX_NANOS,
        ensures
            d@ == self@ + other@,
    {
        Duration { nanos: self.nanos + other.nanos }
    }
}

/// A reading of a monotonic time source: whole nanoseconds since an origin
/// that the caller chooses and keeps for the clock's lifetime.
#[derive(Clone, Copy, Debug, PartialEq, Eq, Structural, PartialOrd, Ord, Hash)]
pub struct Instant {
    pub nanos: u64,
}

impl View for Instant {
    type V = nat;

    open spec fn view(&self) -> nat {
        self.nanos as nat
    }
}

impl Instant {
    pub fn from_nanos(nanos: u64) -> (t: Instant)
        ensures
            t@ == nanos,
    {
        Instant { nanos }
    }

    /// The instant `d` after this one.
    pub fn after(self, d: Duration) -> (t: Instant)
        requires
            self@ + d@ <= MAX_NANOS,
        ensures
            t@ == self@ + d@,
    {
        Instant { nanos: self.nanos + d.nanos }
    }

    /// The span from `earlier` to this instant.
    pub fn duration_since(self, earlier: Instant) -> (d: Duration)
        requires
            earlier@ <= self@,
        ensures
            d@ == self@ - earlier@,
    {
        Duration { nanos: self.nanos - earlier.nanos }
    }
}

} // verus!
