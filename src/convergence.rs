//! What the convergence algorithm guarantees, over every clock state.
use vstd::arithmetic::div_mod::{lemma_div_by_multiple, lemma_div_is_ordered, lemma_fundamental_div_mod};
use vstd::prelude::*;

use crate::adjustment::Rate;
use crate::model::ClockState;

verus! {

/// The allowance `dt * num / den` is that product rounded down.
proof fn lemma_max_delta_bounds(rate: Rate, dt: nat)
    requires
        rate.wf(),
    ensures
        rate.max_delta(dt) * rate.den <= dt * rate.num,
        dt * rate.num < (rate.max_delta(dt) + 1) * rate.den,
{
    let x = (dt * rate.num) as int;
    let d = rate.den as int;
    lemma_fundamental_div_mod(x, d);
    assert(0 <= x % d < d);
    assert(x / d >= 0) by (nonlinear_arith)
        requires
            x >= 0,
            d > 0,
    ;
    assert((x / d) * d <= x && x < (x / d + 1) * d) by (nonlinear_arith)
        requires
            x == d * (x / d) + (x % d),
            0 <= x % d < d,
    ;
}

/// Once `dt * num >= gap * den`, the allowance covers the gap.
proof fn lemma_allowance_covers(rate: Rate, dt: nat, gap: nat)
    requires
        rate.wf(),
        dt * rate.num >= gap * rate.den,
    ensures
        rate.max_delta(dt) >= gap,
{
    lemma_div_is_ordered(gap * rate.den, dt * rate.num, rate.den as int);
    lemma_div_by_multiple(gap as int, rate.den as int);
}

/// The allowance never shrinks as real time goes on.
proof fn lemma_allowance_grows(rate: Rate, dt1: nat, dt2: nat)
    requires
        rate.wf(),
        dt1 <= dt2,
    ensures
        rate.max_delta(dt1) <= rate.max_delta(dt2),
{
    assert(dt1 * rate.num <= dt2 * rate.num) by (nonlinear_arith)
        requires
            dt1 <= dt2,
    ;
    lemma_div_is_ordered(dt1 * rate.num, dt2 * rate.num, rate.den as int);
}

/// A freshly started clock reports zero at its start instant.
pub proof fn lemma_zero_at_start(start: nat, rate: Rate)
    requires
        rate.wf(),
    ensures
        ClockState::started(start, rate).elapsed_at(start) == 0,
{
    assert(0 * rate.num == 0);
}

/// A clock that was never given a target acts as a stopwatch: `d` after its
/// start it reports `d`, whatever its rate.
pub proof fn lemma_stopwatch(start: nat, rate: Rate, d: nat)
    requires
        rate.wf(),
    ensures
        ClockState::started(start, rate).elapsed_at(start + d) == d,
{
}

/// With a zero rate no target ever changes anything: a clock that reads the
/// real time since `start` keeps reading it, and still does after any new
/// target.
pub proof fn lemma_zero_rate_is_stopwatch(s: ClockState, start: nat, now: nat, target: nat)
    requires
        s.wf(),
        s.rate.num == 0,
        s.base == start + s.offset,
        s.base <= now,
    ensures
        s.elapsed_at(now) == now - start,
        s.retarget(now, target).base == start + s.retarget(now, target).offset,
{
    let dt = (now - s.base) as nat;
    assert(dt * s.rate.num == 0);
}

/// At the instant its trajectory begins a clock reports exactly the offset:
/// a target has no effect until real time moves on.
pub proof fn lemma_reads_offset_at_base(s: ClockState)
    requires
        s.wf(),
    ensures
        s.elapsed_at(s.base) == s.offset,
{
    assert(0 * s.rate.num == 0);
}

/// Setting a target never makes the clock jump: at the instant of the call it
/// reports the same time before and after.
pub proof fn lemma_no_jump(s: ClockState, now: nat, target: nat)
    requires
        s.wf(),
        s.base <= now,
    ensures
        s.retarget(now, target).elapsed_at(now) == s.elapsed_at(now),
{
    lemma_reads_offset_at_base(s.retarget(now, target));
}

/// While converging the clock diverges from its unadjusted time by exactly
/// the allowance `dt * num / den` (rounded down), toward the target; once
/// `dt * num >= gap * den`, that is once `dt` is at least the gap divided by
/// the rate, it reports the moving target exactly.
pub proof fn lemma_bounded_rate_convergence(s: ClockState, now: nat)
    requires
        s.wf(),
        s.base <= now,
    ensures
        ({
            let dt = (now - s.base) as nat;
            let delta = s.rate.max_delta(dt);
            &&& delta * s.rate.den <= dt * s.rate.num < (delta + 1) * s.rate.den
            &&& dt * s.rate.num >= s.gap() * s.rate.den ==> s.elapsed_at(now) == s.target_at(now)
            &&& dt * s.rate.num < s.gap() * s.rate.den ==> {
                &&& delta < s.gap()
                &&& s.target >= s.offset ==> s.elapsed_at(now) == s.unadjusted_at(now) + delta
                &&& s.target < s.offset ==> s.elapsed_at(now) == s.unadjusted_at(now) - delta
            }
        }),
{
    let dt = (now - s.base) as nat;
    let delta = s.rate.max_delta(dt);
    lemma_max_delta_bounds(s.rate, dt);
    if dt * s.rate.num >= s.gap() * s.rate.den {
        lemma_allowance_covers(s.rate, dt, s.gap());
    } else {
        let den = s.rate.den as int;
        let gap = s.gap() as int;
        assert(delta < gap) by (nonlinear_arith)
            requires
                delta * den < gap * den,
                den > 0,
        ;
    }
}

/// Once converged, the clock stays locked onto the target: from then on it
/// advances exactly one to one with real time, with no overshoot.
pub proof fn lemma_locked_after_convergence(s: ClockState, t1: nat, t2: nat)
    requires
        s.wf(),
        s.base <= t1 <= t2,
        (t1 - s.base) * s.rate.num >= s.gap() * s.rate.den,
    ensures
        s.elapsed_at(t1) == s.target_at(t1),
        s.elapsed_at(t2) == s.target_at(t2),
        s.elapsed_at(t2) == s.elapsed_at(t1) + (t2 - t1),
{
    let dt1 = (t1 - s.base) as nat;
    let dt2 = (t2 - s.base) as nat;
    lemma_allowance_covers(s.rate, dt1, s.gap());
    lemma_allowance_grows(s.rate, dt1, dt2);
}

} // verus!
