//! Directions: angles in millionths of a radian, and a rational sine.
//!
//! The sine is Bhaskara's approximation, `16 x (pi - x) / (5 pi^2 - 4 x (pi - x))`
//! on the half turn from zero to pi, mirrored onto the other half. It needs
//! integer arithmetic only and stays within a fifth of a percent of the true
//! sine.

use crate::fixed::SCALE;
use vstd::prelude::*;

verus! {

/// A quarter turn.
pub const HALF_PI: i64 = 1_570_796;

/// A half turn.
pub const PI: i64 = 3_141_592;

/// A full turn.
pub const TAU: i64 = 6_283_184;

/// The sine of `x`, for `x` between zero and a half turn.
pub open spec fn half_wave(x: int) -> int {
    let bow = x * (PI - x);
    (16 * SCALE * bow) / (5 * PI * PI - 4 * bow)
}

/// The sine of any angle.
pub open spec fn sine(angle: int) -> int {
    let turned = angle % (TAU as int);
    if turned <= PI {
        half_wave(turned)
    } else {
        -half_wave(turned - PI)
    }
}

/// The cosine of any angle: the sine a quarter turn ahead.
pub open spec fn cosine(angle: int) -> int {
    sine(angle + HALF_PI)
}

/// The half wave rises from zero to one unit and no further.
pub proof fn lemma_half_wave_bounds(x: int)
    requires
        0 <= x <= PI,
    ensures
        0 <= half_wave(x) <= SCALE,
{
    let bow = x * (PI - x);
    let below = 5 * PI * PI - 4 * bow;
    let above = 16 * SCALE * bow;
    lemma_pi_squared();
    assert(0 <= bow && 4 * bow <= PI * PI) by (nonlinear_arith)
        requires
            0 <= x <= PI,
            bow == x * (PI - x),
    ;
    assert(above == 16_000_000 * bow);
    assert(0 <= above / below <= 1_000_000) by (nonlinear_arith)
        requires
            0 < below,
            0 <= above <= 1_000_000 * below,
    ;
}

/// The square of a half turn, written out.
proof fn lemma_pi_squared()
    ensures
        PI * PI == 9_869_600_294_464,
        5 * PI * PI == 49_348_001_472_320,
{
    assert(3_141_592 * 3_141_592 == 9_869_600_294_464int) by (nonlinear_arith);
    assert(5 * 3_141_592 * 3_141_592 == 49_348_001_472_320int) by (nonlinear_arith);
}

/// The half wave is the same seen from either end.
pub proof fn lemma_half_wave_mirrored(x: int)
    ensures
        half_wave(PI - x) == half_wave(x),
{
    assert((PI - x) * (PI - (PI - x)) == x * (PI - x)) by (nonlinear_arith);
}

/// The half wave starts and ends at zero and peaks, at one unit, half way.
pub proof fn lemma_half_wave_ends()
    ensures
        half_wave(0) == 0,
        half_wave(HALF_PI as int) == SCALE,
        half_wave(PI as int) == 0,
{
    lemma_pi_squared();
    let below = 5 * PI * PI;
    assert(0 * (PI - 0) == 0 && PI * (PI - PI) == 0) by (nonlinear_arith);
    assert(0int / below == 0) by (nonlinear_arith)
        requires
            below > 0,
    ;
    let bow = HALF_PI * (PI - HALF_PI);
    assert(bow == 2_467_400_073_616) by (nonlinear_arith)
        requires
            bow == 1_570_796 * (3_141_592 - 1_570_796),
    ;
    assert((16_000_000 * bow) / (16 * bow) == 1_000_000) by (nonlinear_arith)
        requires
            bow > 0,
    ;
}

/// The sine never leaves the band between minus one and one unit.
pub proof fn lemma_sine_bounds(angle: int)
    ensures
        -SCALE <= sine(angle) <= SCALE,
        -SCALE <= cosine(angle) <= SCALE,
{
    let turned = angle % (TAU as int);
    if turned <= PI {
        lemma_half_wave_bounds(turned);
    } else {
        lemma_half_wave_bounds(turned - PI);
    }
    let ahead = (angle + HALF_PI) % (TAU as int);
    if ahead <= PI {
        lemma_half_wave_bounds(ahead);
    } else {
        lemma_half_wave_bounds(ahead - PI);
    }
}

/// A half turn later the sine has changed its sign.
pub proof fn lemma_sine_half_turn(angle: int)
    ensures
        sine(angle + PI) == -sine(angle),
{
    let turned = angle % (TAU as int);
    let later = (angle + PI) % (TAU as int);
    assert(later == if turned < PI {
        turned + PI
    } else {
        turned - PI
    });
    lemma_half_wave_ends();
}

/// The sine at the quarter turns: zero, one, zero, minus one; the cosine runs
/// a quarter turn ahead.
pub proof fn lemma_quarter_turns()
    ensures
        sine(0) == 0,
        sine(HALF_PI as int) == SCALE,
        sine(PI as int) == 0,
        sine(PI + HALF_PI) == -SCALE,
        cosine(0) == SCALE,
        cosine(HALF_PI as int) == 0,
        cosine(PI as int) == -SCALE,
        cosine(PI + HALF_PI) == 0,
{
    lemma_half_wave_ends();
}

/// A full turn later the sine is the same.
pub proof fn lemma_sine_full_turn(angle: int)
    ensures
        sine(angle + TAU) == sine(angle),
        cosine(angle + TAU) == cosine(angle),
{
}

fn half_wave_of(x: i64) -> (r: i64)
    requires
        0 <= x <= PI,
    ensures
        r == half_wave(x as int),
        0 <= r <= SCALE,
{
    proof {
        lemma_half_wave_bounds(x as int);
    }
    assert(0 <= x * (PI - x) <= PI * PI) by (nonlinear_arith)
        requires
            0 <= x <= PI,
    ;
    let bow: i128 = (x as i128) * ((PI - x) as i128);
    let below: i128 = 5 * (PI as i128) * (PI as i128) - 4 * bow;
    let above: i128 = 16 * (SCALE as i128) * bow;
    (above / below) as i64
}

/// The angle brought into the first turn.
pub fn turned(angle: i64) -> (r: i64)
    ensures
        r == (angle as int) % (TAU as int),
        0 <= r < TAU,
{
    let rest: i64 = angle % TAU;
    if rest < 0 {
        rest + TAU
    } else {
        rest
    }
}

/// Sine of an angle, in millionths.
pub fn sin(angle: i64) -> (r: i64)
    ensures
        r == sine(angle as int),
        -SCALE <= r <= SCALE,
{
    let t: i64 = turned(angle);
    if t <= PI {
        half_wave_of(t)
    } else {
        -half_wave_of(t - PI)
    }
}

/// Cosine of an angle, in millionths.
pub fn cos(angle: i64) -> (r: i64)
    ensures
        r == cosine(angle as int),
        -SCALE <= r <= SCALE,
{
    let t: i64 = turned(angle);
    sin(t + HALF_PI)
}

} // verus!
