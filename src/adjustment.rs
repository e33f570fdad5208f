use vstd::prelude::*;

verus! {

/// A non-negative, unitless ratio `num / den`: how many seconds of adjustment
/// are applied per second of real time. It is exact, so `1/4` and `100/1` are
/// represented without rounding.
#[derive(Clone, Copy, Debug, PartialEq, Eq, Structural, Hash)]
pub struct Rate {
    pub num: u64,
    pub den: u64,
}

impl Rate {
    /// A rate is usable when its denominator is not zero.
    pub open spec fn wf(self) -> bool {
        self.den > 0
    }

    /// How far the reported time may diverge from the unadjusted time after
    /// `dt` nanoseconds: `dt * num / den`, rounded down, so the adjustment never
    /// exceeds what the rate allows.
    pub open spec fn max_delta(self, dt: nat) -> nat
        recommends
            self.wf(),
    {
        ((dt * self.num) / (self.den as int)) as nat
    }

    /// The rate `num / den`.
    pub fn new(num: u64, den: u64) -> (r: Rate)
        requires
            den > 0,
        ensures
            r.num == num,
            r.den == den,
            r.wf(),
    {
        Rate { num, den }
    }

    /// The whole-number rate `n`.
    pub fn whole(n: u64) -> (r: Rate)
        ensures
            r.num == n,
            r.den == 1,
            r.wf(),
    {
        Rate { num: n, den: 1 }
    }

    /// The rate that never adjusts: the clock then acts as a stopwatch.
    pub fn zero() -> (r: Rate)
        ensures
            r.num == 0,
            r.den == 1,
            r.wf(),
    {
        Rate { num: 0, den: 1 }
    }
}

/// Specifies how the clock adjusts to the requested target time.
pub trait AdjustmentSettings {
    /// The rate that `rate` returns. It depends on the settings alone, never
    /// on the state of the clock that holds them.
    spec fn spec_rate(&self) -> Rate;

    /// At what rate the current time adjusts to the target time, in seconds
    /// per second: with `1/1000` the clock is adjusted by at most one
    /// millisecond per second. With `1/1` a clock that ran ahead stands still
    /// until the target catches up; above that it would run backward.
    fn rate(&self) -> (r: Rate)
        ensures
            r == self.spec_rate(),
    ;
}

/// Adjusts the clock at a constant rate.
#[derive(Clone, Copy, Debug, PartialEq, Eq, Structural, Hash)]
pub struct ConstantRate(pub Rate);

impl AdjustmentSettings for ConstantRate {
    open spec fn spec_rate(&self) -> Rate {
        self.0
    }

    fn rate(&self) -> (r: Rate) {
        self.0
    }
}

} // verus!
