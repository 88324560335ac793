//! Exact division helpers for fixed-point arithmetic.
//!
//! All fixed-point scaling in this crate divides by a positive constant and
//! rounds toward zero. `quot` is that rounding written out over mathematical
//! integers; the executable functions are proved to compute exactly `quot`.

use vstd::prelude::*;

verus! {

use vstd::arithmetic::div_mod::{
    lemma_div_is_ordered, lemma_div_multiples_vanish, lemma_div_pos_is_pos,
};

/// Division rounding toward zero (the quotient convention of this crate).
/// For a negative numerator this differs from Euclidean `/` on `int`.
pub open spec fn quot(num: int, den: int) -> int {
    if num >= 0 {
        num / den
    } else {
        -((-num) / den)
    }
}

/// Quotient of a non-negative numerator by a positive denominator.
pub fn div_nn(num: i64, den: i64) -> (r: i64)
    requires
        0 <= num,
        0 < den,
    ensures
        r == num as int / den as int,
        0 <= r <= num,
{
    proof {
        lemma_div_pos_is_pos(num as int, den as int);
        assert(num as int <= num as int * den as int) by (nonlinear_arith)
            requires
                0 <= num,
                1 <= den,
        ;
        lemma_div_is_ordered(num as int, num as int * den as int, den as int);
        lemma_div_multiples_vanish(num as int, den as int);
    }
    let q = (num as u64) / (den as u64);
    q as i64
}

/// Quotient rounding toward zero, for a possibly negative numerator.
pub fn div_fx(num: i64, den: i64) -> (r: i64)
    requires
        0 < den,
        -i64::MAX <= num,
    ensures
        r == quot(num as int, den as int),
        -num <= r <= num || num <= r <= -num,
{
    if num >= 0 {
        div_nn(num, den)
    } else {
        let q = div_nn(-num, den);
        -q
    }
}

/// The quotient of `num` by `den` stays within `b` when `num` is within `b * den`.
pub proof fn lemma_quot_bound(num: int, den: int, b: int)
    requires
        0 < den,
        0 <= b,
        -(b * den) <= num <= b * den,
    ensures
        -b <= quot(num, den) <= b,
{
    assert(b * den == den * b) by (nonlinear_arith);
    lemma_div_multiples_vanish(b, den);
    if num >= 0 {
        lemma_div_pos_is_pos(num, den);
        lemma_div_is_ordered(num, b * den, den);
    } else {
        lemma_div_pos_is_pos(-num, den);
        lemma_div_is_ordered(-num, b * den, den);
    }
}

/// Dividing an exact multiple is exact: `quot(a * den, den) == a`.
pub proof fn lemma_quot_multiple(a: int, den: int)
    requires
        0 < den,
    ensures
        quot(a * den, den) == a,
{
    assert(a * den == den * a && -(a * den) == den * (-a) && (a >= 0 ==> a * den >= 0) && (a < 0
        ==> a * den < 0)) by (nonlinear_arith)
        requires
            0 < den,
    ;
    lemma_div_multiples_vanish(a, den);
    lemma_div_multiples_vanish(-a, den);
}

/// Products of scaled unit values (`0` or `±SCALE`), in every sign shape.
pub proof fn lemma_unit_prod(a: int, b: int)
    by (nonlinear_arith)
    requires
        a == 0 || a == 1000 || a == -1000,
        b == 0 || b == 1000 || b == -1000,
    ensures
        (a == 0 || b == 0) ==> (a * b == 0 && (-a) * (-b) == 0 && (-a) * b == 0 && a * (-b) == 0),
        ((a == 1000 && b == 1000) || (a == -1000 && b == -1000)) ==> (a * b == 1000000 && (-a) * (
        -b) == 1000000 && (-a) * b == -1000000 && a * (-b) == -1000000),
        ((a == 1000 && b == -1000) || (a == -1000 && b == 1000)) ==> (a * b == -1000000 && (-a) * (
        -b) == -1000000 && (-a) * b == 1000000 && a * (-b) == 1000000),
{
}

/// Quotients of the scaled unit products by `SCALE`.
pub proof fn lemma_quot_units()
    ensures
        quot(0, 1000) == 0,
        quot(1000000, 1000) == 1000,
        quot(-1000000, 1000) == -1000,
{
    assert(0 * 1000 == 0 && 1000 * 1000 == 1000000 && (-1000) * 1000 == -1000000)
        by (nonlinear_arith);
    lemma_quot_multiple(0, 1000);
    lemma_quot_multiple(1000, 1000);
    lemma_quot_multiple(-1000, 1000);
}

/// The integer square root: the largest `r` with `r * r <= v`.
pub open spec fn isqrt_spec(v: nat) -> nat
    decreases v,
{
    if v == 0 {
        0
    } else {
        let r = isqrt_spec((v - 1) as nat);
        if (r + 1) * (r + 1) <= v {
            (r + 1) as nat
        } else {
            r
        }
    }
}

/// `isqrt_spec` is squeezed between the neighbouring squares.
pub proof fn lemma_isqrt_spec_bounds(v: nat)
    ensures
        isqrt_spec(v) * isqrt_spec(v) <= v,
        v < (isqrt_spec(v) + 1) * (isqrt_spec(v) + 1),
    decreases v,
{
    if v == 0 {
        assert((0int) * (0int) == 0 && ((0int) + 1) * ((0int) + 1) == 1) by (nonlinear_arith);
    } else {
        lemma_isqrt_spec_bounds((v - 1) as nat);
        let r = isqrt_spec((v - 1) as nat);
        if (r + 1) * (r + 1) <= v {
            assert(v < ((r + 1) + 1) * ((r + 1) + 1)) by (nonlinear_arith)
                requires
                    v - 1 < (r + 1) * (r + 1),
                    0 <= r,
            ;
        }
    }
}

/// Any `r` squeezed between the neighbouring squares is the square root.
pub proof fn lemma_isqrt_unique(v: nat, r: nat)
    requires
        r * r <= v,
        v < (r + 1) * (r + 1),
    ensures
        r == isqrt_spec(v),
{
    lemma_isqrt_spec_bounds(v);
    assert(r == isqrt_spec(v)) by (nonlinear_arith)
        requires
            r * r <= v < (r + 1) * (r + 1),
            isqrt_spec(v) * isqrt_spec(v) <= v < (isqrt_spec(v) + 1) * (isqrt_spec(v) + 1),
            0 <= r,
            0 <= isqrt_spec(v),
    ;
}

/// Compute the integer square root by bisection.
pub fn isqrt(v: i64) -> (r: i64)
    requires
        0 <= v,
    ensures
        r == isqrt_spec(v as nat),
        0 <= r <= 3_037_000_499,
        r * r <= v,
        v < (r + 1) * (r + 1),
{
    let mut lo: u64 = 0;
    let mut hi: u64 = 3_037_000_500;
    proof {
        assert(3_037_000_500i64 as int * 3_037_000_500 as int > i64::MAX as int)
            by (nonlinear_arith);
        assert(0int * 0int == 0) by (nonlinear_arith);
    }
    while lo + 1 < hi
        invariant
            0 <= lo < hi <= 3_037_000_500,
            lo as int * lo as int <= v as int,
            (v as int) < (hi as int) * (hi as int),
        decreases hi - lo,
    {
        let mid = lo + (hi - lo) / 2;
        proof {
            assert(mid as int * mid as int <= 3_037_000_500i64 as int * 3_037_000_500 as int)
                by (nonlinear_arith)
                requires
                    0 <= mid <= 3_037_000_500,
            ;
        }
        if mid * mid <= (v as u64) {
            lo = mid;
        } else {
            hi = mid;
        }
    }
    proof {
        lemma_isqrt_unique(v as nat, lo as nat);
    }
    lo as i64
}

} // verus!
