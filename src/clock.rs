use vstd::prelude::*;

use crate::adjustment::AdjustmentSettings;
use crate::model::ClockState;
use crate::time::{Duration, Instant, MAX_NANOS};

verus! {

/// Measures elapsed time, and converges toward a requested elapsed time at the
/// rate its settings give.
///
/// Every method that needs the current time takes an `Instant`; the instants
/// handed to one clock must not decrease.
pub struct Clock<A: AdjustmentSettings> {
    base: Instant,
    offset: Duration,
    /// The requested elapsed time at `base`.
    target: Duration,
    adjustment_settings: A,
}

impl<A: AdjustmentSettings> View for Clock<A> {
    type V = ClockState;

    closed spec fn view(&self) -> ClockState {
        ClockState {
            base: self.base@,
            offset: self.offset@,
            target: self.target@,
            rate: self.adjustment_settings.spec_rate(),
        }
    }
}

impl<A: AdjustmentSettings> Clock<A> {
    #[verifier::type_invariant]
    spec fn inv(self) -> bool {
        self.adjustment_settings.spec_rate().wf()
    }

    /// The settings the clock was made with.
    pub closed spec fn settings(&self) -> A {
        self.adjustment_settings
    }

    /// Starts measuring time at `start_time`.
    pub fn new(start_time: Instant, adjustment_settings: A) -> (c: Self)
        requires
            adjustment_settings.spec_rate().wf(),
        ensures
            c@ == ClockState::started(start_time@, adjustment_settings.spec_rate()),
            c.settings() == adjustment_settings,
    {
        Clock {
            base: start_time,
            offset: Duration::zero(),
            target: Duration::zero(),
            adjustment_settings,
        }
    }

    /// Whether `now` may be handed to `elapsed` or `set_target`: it is not
    /// before the current base, and the times at `now` fit in a `Duration`.
    pub fn accepts(&self, now: Instant) -> (b: bool)
        ensures
            b == self@.can_query(now@),
    {
        if now.nanos < self.base.nanos {
            return false;
        }
        let dt = now.nanos - self.base.nanos;
        dt.checked_add(self.offset.nanos).is_some() && dt.checked_add(self.target.nanos).is_some()
    }

    /// Sets the current time, which the clock will start adjusting to. The
    /// time reported at `now` does not change.
    pub fn set_target(&mut self, now: Instant, target: Duration)
        requires
            old(self)@.can_query(now@),
        ensures
            final(self)@ == old(self)@.retarget(now@, target@),
            final(self).settings() == old(self).settings(),
    {
        proof {
            use_type_invariant(&*self);
        }
        let offset = self.elapsed(now);
        self.offset = offset;
        self.base = now;
        self.target = target;
    }

    /// The elapsed time since the clock started, including any adjustment.
    pub fn elapsed(&self, now: Instant) -> (r: Duration)
        requires
            self@.can_query(now@),
        ensures
            r@ == self@.elapsed_at(now@),
    {
        proof {
            use_type_invariant(self);
        }
        let since_base = now.duration_since(self.base);
        let dt = since_base.as_nanos();
        let unadjusted = since_base.plus(self.offset).as_nanos();
        let current_target = since_base.plus(self.target).as_nanos();
        let rate = self.adjustment_settings.rate();
        // the product of two `u64`s fits in a `u128`
        assert((dt as nat) * (rate.num as nat) <= (MAX_NANOS as nat) * (MAX_NANOS as nat))
            by (nonlinear_arith)
            requires
                dt <= MAX_NANOS,
                rate.num <= MAX_NANOS,
        ;
        let max_delta: u128 = (dt as u128) * (rate.num as u128) / (rate.den as u128);
        // move toward the target by at most `max_delta`, never past it
        if current_target >= unadjusted {
            if max_delta < ((current_target - unadjusted) as u128) {
                Duration::from_nanos(unadjusted + max_delta as u64)
            } else {
                Duration::from_nanos(current_target)
            }
        } else {
            if max_delta < ((unadjusted - current_target) as u128) {
                Duration::from_nanos(unadjusted - max_delta as u64)
            } else {
                Duration::from_nanos(current_target)
            }
        }
    }
}

} // verus!
