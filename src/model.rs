use vstd::prelude::*;

use crate::adjustment::Rate;
use crate::time::MAX_NANOS;

verus! {

/// What a clock is, mathematically: the instant at which its current
/// trajectory began, the elapsed time it reported then, the elapsed time it
/// was asked to reach then, and the rate of its settings. Times are in
/// nanoseconds.
pub struct ClockState {
    pub base: nat,
    pub offset: nat,
    pub target: nat,
    pub rate: Rate,
}

impl ClockState {
    /// A clock started at `start`: it reports zero there and steers nowhere.
    pub open spec fn started(start: nat, rate: Rate) -> ClockState {
        ClockState { base: start, offset: 0, target: 0, rate }
    }

    pub open spec fn wf(self) -> bool {
        self.rate.wf()
    }

    /// Where the clock would be at `now` without any adjustment: a plain
    /// stopwatch from the base.
    pub open spec fn unadjusted_at(self, now: nat) -> nat
        recommends
            self.base <= now,
    {
        (now - self.base + self.offset) as nat
    }

    /// Where the target is at `now`: it moves on with real time.
    pub open spec fn target_at(self, now: nat) -> nat
        recommends
            self.base <= now,
    {
        (now - self.base + self.target) as nat
    }

    /// The elapsed time reported at `now`: the unadjusted time moved toward
    /// the target by at most the rate's allowance, never past the target.
    pub open spec fn elapsed_at(self, now: nat) -> nat
        recommends
            self.base <= now,
    {
        let unadjusted = self.unadjusted_at(now);
        let goal = self.target_at(now);
        let delta = self.rate.max_delta((now - self.base) as nat);
        if goal >= unadjusted {
            if unadjusted + delta <= goal {
                unadjusted + delta
            } else {
                goal
            }
        } else {
            if unadjusted - delta >= goal {
                (unadjusted - delta) as nat
            } else {
                goal
            }
        }
    }

    /// The clock after being asked at `now` to steer toward `target`: it
    /// starts a new trajectory from what it reports at `now`.
    pub open spec fn retarget(self, now: nat, target: nat) -> ClockState
        recommends
            self.base <= now,
    {
        ClockState { base: now, offset: self.elapsed_at(now), target, rate: self.rate }
    }

    /// How far the target is from the reported time when the trajectory
    /// begins.
    pub open spec fn gap(self) -> nat {
        if self.target >= self.offset {
            (self.target - self.offset) as nat
        } else {
            (self.offset - self.target) as nat
        }
    }

    /// `now` is not before the base, and both the unadjusted time and the
    /// target at `now` fit in a `Duration`.
    pub open spec fn can_query(self, now: nat) -> bool {
        &&& self.base <= now
        &&& now - self.base + self.offset <= MAX_NANOS
        &&& now - self.base + self.target <= MAX_NANOS
    }
}

} // verus!
