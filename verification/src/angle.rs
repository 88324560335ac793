//! Angles in deci-degrees and fixed-point trigonometry.
//!
//! An angle is an `i64` number of deci-degrees; a full turn is `TURN` = 3600.
//! Angles held in engine state are kept normalized to `[0, TURN)`, so that a
//! pose depends only on the geometric angle and accumulation can never
//! overflow.
//!
//! `sin_fx` and `cos_fx` return values scaled by `SCALE` = 1000. They use a
//! quadratic rational approximation of the half sine wave, which is exact at
//! every multiple of a quarter turn and stays within `[-SCALE, SCALE]`
//! everywhere; both facts are proved below. The approximation is a fixed,
//! documented convention of this engine: its contracts pin the result down to
//! the exact integer formula in `sin_spec`.

use vstd::prelude::*;

verus! {

use crate::fixed::{div_nn, lemma_quot_bound};

/// An angle normalized to `[0, TURN)`.
pub open spec fn angle_norm(a: int) -> int {
    a % 3600
}

/// Whether `a` is a normalized angle.
pub open spec fn is_angle(a: int) -> bool {
    0 <= a < 3600
}

/// Normalize an accumulated angle to `[0, TURN)`.
pub fn norm_angle(a: i64) -> (r: i64)
    requires
        -0x4000_0000_0000_0000 <= a <= 0x4000_0000_0000_0000,
    ensures
        r == angle_norm(a as int),
        is_angle(r as int),
{
    if a >= 0 {
        ((a as u64) % 3600) as i64
    } else {
        let m = ((-a) as u64) % 3600;
        if m == 0 {
            0
        } else {
            (3600 - m) as i64
        }
    }
}

/// The rising half wave of the scaled sine, for `x` in `[0, 1800]`:
/// a quadratic rational approximation, exact at 0, 900 and 1800.
pub open spec fn half_sine(x: int) -> int {
    (4 * x * (1800 - x) * 1000) / (4050000 - x * (1800 - x))
}

/// Scaled sine of an angle in deci-degrees.
pub open spec fn sin_spec(a: int) -> int {
    let d = angle_norm(a);
    if d <= 1800 {
        half_sine(d)
    } else {
        -half_sine(d - 1800)
    }
}

/// Scaled cosine of an angle in deci-degrees.
pub open spec fn cos_spec(a: int) -> int {
    sin_spec(a + 900)
}

/// The half wave stays within `[0, SCALE]`.
pub proof fn lemma_half_sine_bounds(x: int)
    requires
        0 <= x <= 1800,
    ensures
        0 <= half_sine(x) <= 1000,
{
    assert(0 <= x * (1800 - x) <= 810000) by (nonlinear_arith)
        requires
            0 <= x <= 1800,
    ;
    assert(4 * x * (1800 - x) * 1000 == 4000 * (x * (1800 - x))) by (nonlinear_arith);
    lemma_quot_bound(4000 * (x * (1800 - x)), 4050000 - x * (1800 - x), 1000);
}

/// Away from its zeros the half wave is at least 1: the approximation never
/// collapses a non-degenerate angle to zero.
pub proof fn lemma_half_sine_pos(x: int)
    requires
        1 <= x <= 1799,
    ensures
        1 <= half_sine(x),
{
    assert(1799 <= x * (1800 - x) <= 810000) by (nonlinear_arith)
        requires
            1 <= x <= 1799,
    ;
    assert(4 * x * (1800 - x) * 1000 == 4000 * (x * (1800 - x))) by (nonlinear_arith);
    vstd::arithmetic::div_mod::lemma_div_is_ordered(
        4050000 - x * (1800 - x),
        4 * x * (1800 - x) * 1000,
        4050000 - x * (1800 - x),
    );
    vstd::arithmetic::div_mod::lemma_div_by_self(4050000 - x * (1800 - x));
}

/// The scaled sine stays within `[-SCALE, SCALE]` for every angle.
pub proof fn lemma_sin_bounds(a: int)
    ensures
        -1000 <= sin_spec(a) <= 1000,
{
    let d = angle_norm(a);
    if d <= 1800 {
        lemma_half_sine_bounds(d);
    } else {
        lemma_half_sine_bounds(d - 1800);
    }
}

/// The scaled cosine stays within `[-SCALE, SCALE]` for every angle.
pub proof fn lemma_cos_bounds(a: int)
    ensures
        -1000 <= cos_spec(a) <= 1000,
{
    lemma_sin_bounds(a + 900);
}

/// Exact values at the quarter-turn angles.
pub proof fn lemma_sin_quarters()
    ensures
        sin_spec(0) == 0,
        sin_spec(900) == 1000,
        sin_spec(1800) == 0,
        sin_spec(2700) == -1000,
        cos_spec(0) == 1000,
        cos_spec(900) == 0,
        cos_spec(1800) == -1000,
        cos_spec(2700) == 0,
{
    vstd::arithmetic::div_mod::lemma_div_of0(4050000);
    assert(4 * 0 * (1800 - 0) * 1000 == 0) by (nonlinear_arith);
    assert(half_sine(0) == 0);
    assert(4 * 1800 * (1800 - 1800) * 1000 == 0) by (nonlinear_arith);
    assert(half_sine(1800) == 0);
    assert(4 * 900 * (1800 - 900) * 1000 == 3240000 * 1000) by (nonlinear_arith);
    assert(4050000 - 900 * (1800 - 900) == 3240000) by (nonlinear_arith);
    vstd::arithmetic::div_mod::lemma_div_multiples_vanish(1000, 3240000);
    assert(half_sine(900) == 1000);
    assert(angle_norm(0) == 0 && angle_norm(900) == 900 && angle_norm(1800) == 1800 && angle_norm(
        2700,
    ) == 2700 && angle_norm(3600) == 0);
}

/// Scaled sine of a normalized angle.
pub fn sin_fx(a: i64) -> (r: i64)
    requires
        is_angle(a as int),
    ensures
        r == sin_spec(a as int),
        -1000 <= r <= 1000,
{
    if a <= 1800 {
        half_sine_fx(a)
    } else {
        let v = half_sine_fx(a - 1800);
        -v
    }
}

/// Scaled cosine of a normalized angle.
pub fn cos_fx(a: i64) -> (r: i64)
    requires
        is_angle(a as int),
    ensures
        r == cos_spec(a as int),
        -1000 <= r <= 1000,
{
    if a < 2700 {
        sin_fx(a + 900)
    } else {
        sin_fx(a - 2700)
    }
}

/// Executable half wave, proved equal to `half_sine`.
fn half_sine_fx(x: i64) -> (r: i64)
    requires
        0 <= x <= 1800,
    ensures
        r == half_sine(x as int),
        0 <= r <= 1000,
{
    proof {
        lemma_half_sine_bounds(x as int);
        assert(0 <= (x as int) * (1800 - x as int) <= 810000) by (nonlinear_arith)
            requires
                0 <= x <= 1800,
        ;
        assert(4 * (x as int) * (1800 - x as int) * 1000 == 4000 * ((x as int) * (1800 - x as int)))
            by (nonlinear_arith);
    }
    let p = x * (1800 - x);
    let num = 4000 * p;
    let den = 4050000 - p;
    div_nn(num, den)
}

} // verus!
