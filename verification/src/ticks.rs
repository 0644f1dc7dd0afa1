use vstd::prelude::*;
use vstd::arithmetic::div_mod::lemma_div_denominator;
use vstd::arithmetic::div_mod::lemma_div_is_ordered;
use vstd::arithmetic::div_mod::lemma_div_is_ordered_by_denominator;
use vstd::arithmetic::div_mod::lemma_div_multiples_vanish;
use vstd::arithmetic::div_mod::lemma_fundamental_div_mod;
use vstd::arithmetic::div_mod::lemma_mod_bound;

use crate::rate::RESOLUTION;

verus! {

pub const PWM_PERCENT_INCREMENTS: u32 = 10;

pub const MAX_MULT: u32 = 192;

pub const MICROS_PER_MINUTE: u64 = 60_000_000;

/// Master ticks per unity-rate beat, as the product of the pulse-width
/// granularity and the largest tick multiplier.
pub fn resolution() -> (r: u32)
    ensures
        r == RESOLUTION,
{
    PWM_PERCENT_INCREMENTS * MAX_MULT
}

/// Length of one master tick in microseconds at the given tempo:
/// one minute divided by `bpm * RESOLUTION` ticks, rounded down.
pub open spec fn tick_period_micros(bpm: int) -> int {
    (MICROS_PER_MINUTE as int) / (bpm * RESOLUTION)
}

/// The master tick period for a tempo, for arming the tick timer.
pub fn tick_duration_micros(bpm: u32) -> (r: u64)
    requires
        1 <= bpm <= 300,
    ensures
        r == tick_period_micros(bpm as int),
        r > 0,
{
    let denom: u64 = (bpm as u64) * 1920;
    assert(denom >= 1920);
    let r = MICROS_PER_MINUTE / denom;
    proof {
        lemma_tick_period_positive(bpm as int);
    }
    r
}

/// The tick period equals `31250 / bpm` microseconds: the resolution divides
/// a minute of microseconds evenly.
proof fn lemma_tick_period_closed_form(bpm: int)
    requires
        1 <= bpm,
    ensures
        tick_period_micros(bpm) == 31_250int / bpm,
{
    lemma_div_denominator(MICROS_PER_MINUTE as int, RESOLUTION as int, bpm);
    assert(RESOLUTION * bpm == bpm * RESOLUTION) by (nonlinear_arith);
}

/// The tick period is positive over the whole supported tempo range.
pub proof fn lemma_tick_period_positive(bpm: int)
    requires
        1 <= bpm <= 300,
    ensures
        tick_period_micros(bpm) >= 104,
{
    lemma_tick_period_closed_form(bpm);
    lemma_div_is_ordered_by_denominator(31_250, bpm, 300);
}

/// A faster tempo never lengthens the tick period, and strictly shortens it
/// for tempos up to 177 beats per minute; above that the microsecond grid is
/// too coarse for every single-step change to show.
pub proof fn lemma_tick_period_decreasing(b1: int, b2: int)
    requires
        1 <= b1 < b2 <= 300,
    ensures
        tick_period_micros(b1) >= tick_period_micros(b2),
        b2 <= 177 ==> tick_period_micros(b1) > tick_period_micros(b2),
{
    lemma_tick_period_closed_form(b1);
    lemma_tick_period_closed_form(b2);
    let n = 31_250int;
    lemma_div_is_ordered_by_denominator(n, b1, b2);
    if b2 <= 177 {
        let a = b2 - 1;
        let q = n / b2;
        lemma_fundamental_div_mod(n, b2);
        lemma_mod_bound(n, b2);
        // a * b2 is at most 176 * 177, which stays below n
        assert(a * b2 <= 31_152) by (nonlinear_arith)
            requires
                1 <= a,
                a < b2 <= 177,
        ;
        // so the quotient is at least a
        lemma_div_is_ordered(a * b2, n, b2);
        assert(b2 * a == a * b2) by (nonlinear_arith);
        lemma_div_multiples_vanish(a, b2);
        assert(q >= a);
        // n covers q + 1 whole spans of a
        assert(b2 * q == q * a + q) by (nonlinear_arith)
            requires
                b2 == a + 1,
        ;
        assert(n >= (q + 1) * a) by (nonlinear_arith)
            requires
                n >= q * a + q,
                q >= a,
        ;
        // hence dividing by a gives at least q + 1
        lemma_div_is_ordered((q + 1) * a, n, a);
        assert(a * (q + 1) == (q + 1) * a) by (nonlinear_arith);
        lemma_div_multiples_vanish(q + 1, a);
        assert(n / a >= q + 1);
        lemma_div_is_ordered_by_denominator(n, b1, a);
    }
}

} // verus!
