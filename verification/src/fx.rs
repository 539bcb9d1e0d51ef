//! Saturating fixed-point arithmetic.
//!
//! Every quantity of the simulation (positions, velocities, forces, the
//! configuration constants) is a signed fixed-point number: an `i64` that
//! stands for `raw / SCALE` world units.  `SCALE` is chosen so that every
//! constant of the simulation (0.4, 0.9, 0.2, 0.7, a mass of 16, a tick of
//! 1/60 s or 1/64 s) is represented exactly.
//!
//! The operations widen to `i128`, so no intermediate result is ever lost;
//! a result that would not fit an `i64` is saturated to `±i64::MAX` (the
//! fixed-point analogue of a float running off to infinity).  Every
//! operation mirrors its spec-level definition exactly, so the contracts of
//! the simulation describe each computed value bit for bit.

use vstd::prelude::*;

verus! {

/// Raw fixed-point steps per world unit.
pub const SCALE: i64 = 960;

/// Saturation of a mathematical integer into the symmetric i64 range
/// `[-i64::MAX, i64::MAX]`.  (`i64::MIN` is left out so that every
/// representable value can be negated.)
pub open spec fn sat64(x: int) -> int {
    if x > i64::MAX {
        i64::MAX as int
    } else if x < -(i64::MAX as int) {
        -(i64::MAX as int)
    } else {
        x
    }
}

/// Magnitude of an integer.
pub open spec fn iabs(x: int) -> int {
    if x < 0 {
        -x
    } else {
        x
    }
}

/// Truncating (round-toward-zero) division — the semantics of machine
/// integer division — for positive divisors.
pub open spec fn trunc_div(a: int, b: int) -> int
    recommends
        b > 0,
{
    if a >= 0 {
        a / b
    } else {
        -((-a) / b)
    }
}

/// The smaller of two integers.
pub open spec fn imin(a: int, b: int) -> int {
    if a < b {
        a
    } else {
        b
    }
}

/// `x` forced into `[lo, hi]`.
pub open spec fn iclamp(x: int, lo: int, hi: int) -> int
    recommends
        lo <= hi,
{
    if x < lo {
        lo
    } else if x > hi {
        hi
    } else {
        x
    }
}

/// Fixed-point product: `(a * b) / SCALE`, truncated, saturated.
pub open spec fn fx_mul(a: int, b: int) -> int {
    sat64(trunc_div(a * b, SCALE as int))
}

/// Fixed-point quotient: `(a * SCALE) / b`, truncated, saturated.
pub open spec fn fx_div(a: int, b: int) -> int
    recommends
        b > 0,
{
    sat64(trunc_div(a * SCALE, b))
}

/// Saturation of a mathematical integer into the symmetric i128 range.
pub open spec fn sat128(x: int) -> int {
    if x > i128::MAX {
        i128::MAX as int
    } else if x < -(i128::MAX as int) {
        -(i128::MAX as int)
    } else {
        x
    }
}

/// Fixed-point dot product of `(ax, ay)` and `(bx, by)`.
pub open spec fn fx_dot(ax: int, ay: int, bx: int, by: int) -> int {
    sat64(trunc_div(sat128(ax * bx + ay * by), SCALE as int))
}

/// The i64-level mirrors of the operations below: each gives, as an `i64`,
/// exactly the value the corresponding executable operation returns.
pub open spec fn add_sat_spec(a: i64, b: i64) -> i64 {
    sat64(a + b) as i64
}

pub open spec fn sub_sat_spec(a: i64, b: i64) -> i64 {
    sat64(a - b) as i64
}

pub open spec fn neg_sat_spec(a: i64) -> i64 {
    sat64(-a) as i64
}

pub open spec fn mul_fx_spec(a: i64, b: i64) -> i64 {
    fx_mul(a as int, b as int) as i64
}

pub open spec fn div_fx_spec(a: i64, b: i64) -> i64
    recommends
        b > 0,
{
    fx_div(a as int, b as int) as i64
}

pub open spec fn div_trunc_spec(a: i64, b: i64) -> i64
    recommends
        b > 0,
{
    trunc_div(a as int, b as int) as i64
}

pub open spec fn dot_fx_spec(ax: i64, ay: i64, bx: i64, by: i64) -> i64 {
    fx_dot(ax as int, ay as int, bx as int, by as int) as i64
}

pub open spec fn min64_spec(a: i64, b: i64) -> i64 {
    imin(a as int, b as int) as i64
}

pub open spec fn clamp64_spec(x: i64, lo: i64, hi: i64) -> i64
    recommends
        lo <= hi,
{
    iclamp(x as int, lo as int, hi as int) as i64
}

pub open spec fn abs_sat_spec(a: i64) -> i64 {
    sat64(iabs(a as int)) as i64
}

proof fn lemma_prod_fits_i128(a: int, b: int)
    requires
        i64::MIN <= a <= i64::MAX,
        i64::MIN <= b <= i64::MAX,
    ensures
        i128::MIN <= a * b <= i128::MAX,
{
    assert(i128::MIN <= a * b <= i128::MAX) by (nonlinear_arith)
        requires
            i64::MIN <= a <= i64::MAX,
            i64::MIN <= b <= i64::MAX,
    ;
}

fn add_sat_i128(x: i128, y: i128) -> (r: i128)
    ensures
        r as int == sat128(x + y),
{
    if x >= 0 {
        if y > i128::MAX - x {
            i128::MAX
        } else {
            let s = x + y;
            if s < -i128::MAX {
                -i128::MAX
            } else {
                s
            }
        }
    } else {
        if y < i128::MIN - x {
            -i128::MAX
        } else {
            let s = x + y;
            if s < -i128::MAX {
                -i128::MAX
            } else {
                s
            }
        }
    }
}

fn sat_narrow(x: i128) -> (r: i64)
    ensures
        r as int == sat64(x as int),
{
    if x > i64::MAX as i128 {
        i64::MAX
    } else if x < -(i64::MAX as i128) {
        -i64::MAX
    } else {
        x as i64
    }
}

/// Saturating addition.
pub fn add_sat(a: i64, b: i64) -> (r: i64)
    ensures
        r as int == sat64(a + b),
        r == add_sat_spec(a, b),
{
    sat_narrow(a as i128 + b as i128)
}

/// Saturating subtraction.
pub fn sub_sat(a: i64, b: i64) -> (r: i64)
    ensures
        r as int == sat64(a - b),
        r == sub_sat_spec(a, b),
{
    sat_narrow(a as i128 - b as i128)
}

/// Saturating negation.
pub fn neg_sat(a: i64) -> (r: i64)
    ensures
        r as int == sat64(-a),
        r == neg_sat_spec(a),
{
    if a == i64::MIN {
        i64::MAX
    } else {
        -a
    }
}

/// Fixed-point multiplication, exact up to saturation.
pub fn mul_fx(a: i64, b: i64) -> (r: i64)
    ensures
        r as int == fx_mul(a as int, b as int),
        r == mul_fx_spec(a, b),
{
    proof {
        lemma_prod_fits_i128(a as int, b as int);
    }
    let p: i128 = (a as i128) * (b as i128);
    sat_narrow(p / (SCALE as i128))
}

/// Fixed-point division by a positive divisor, exact up to saturation.
pub fn div_fx(a: i64, b: i64) -> (r: i64)
    requires
        b > 0,
    ensures
        r as int == fx_div(a as int, b as int),
        r == div_fx_spec(a, b),
{
    proof {
        lemma_prod_fits_i128(a as int, SCALE as int);
    }
    let p: i128 = (a as i128) * (SCALE as i128);
    sat_narrow(p / (b as i128))
}

/// Plain truncating division by a positive divisor.
pub fn div_trunc(a: i64, b: i64) -> (r: i64)
    requires
        b > 0,
    ensures
        r as int == trunc_div(a as int, b as int),
        r == div_trunc_spec(a, b),
{
    a / b
}

/// Fixed-point dot product, exact up to saturation.
pub fn dot_fx(ax: i64, ay: i64, bx: i64, by: i64) -> (r: i64)
    ensures
        r as int == fx_dot(ax as int, ay as int, bx as int, by as int),
        r == dot_fx_spec(ax, ay, bx, by),
{
    proof {
        lemma_prod_fits_i128(ax as int, bx as int);
        lemma_prod_fits_i128(ay as int, by as int);
    }
    let p1: i128 = (ax as i128) * (bx as i128);
    let p2: i128 = (ay as i128) * (by as i128);
    let p: i128 = add_sat_i128(p1, p2);
    sat_narrow(p / (SCALE as i128))
}

/// Whether the exact (unscaled) dot product of `(ax, ay)` and `(bx, by)`
/// is strictly positive.
pub fn dot_is_positive(ax: i64, ay: i64, bx: i64, by: i64) -> (r: bool)
    ensures
        r == (ax * bx + ay * by > 0),
{
    proof {
        lemma_prod_fits_i128(ax as int, bx as int);
        lemma_prod_fits_i128(ay as int, by as int);
    }
    let p1: i128 = (ax as i128) * (bx as i128);
    let p2: i128 = (ay as i128) * (by as i128);
    add_sat_i128(p1, p2) > 0
}

/// The smaller of two values.
pub fn min64(a: i64, b: i64) -> (r: i64)
    ensures
        r as int == imin(a as int, b as int),
        r == min64_spec(a, b),
{
    if a < b {
        a
    } else {
        b
    }
}

/// `x` forced into `[lo, hi]`.
pub fn clamp64(x: i64, lo: i64, hi: i64) -> (r: i64)
    requires
        lo <= hi,
    ensures
        r as int == iclamp(x as int, lo as int, hi as int),
        r == clamp64_spec(x, lo, hi),
{
    if x < lo {
        lo
    } else if x > hi {
        hi
    } else {
        x
    }
}

/// Magnitude of a value, saturated (so defined even at `i64::MIN`).
pub fn abs_sat(a: i64) -> (r: i64)
    ensures
        r as int == sat64(iabs(a as int)),
        r == abs_sat_spec(a),
{
    if a < 0 {
        neg_sat(a)
    } else {
        a
    }
}

/// Integer square root, defined by counting up: the largest `r` with
/// `r * r <= v`.
pub open spec fn isqrt_spec(v: nat) -> nat
    decreases v,
{
    if v == 0 {
        0
    } else {
        let r = isqrt_spec((v - 1) as nat);
        if (r + 1) * (r + 1) <= v {
            r + 1
        } else {
            r
        }
    }
}

pub proof fn lemma_isqrt_spec_bounds(v: nat)
    ensures
        isqrt_spec(v) * isqrt_spec(v) <= v,
        v < (isqrt_spec(v) + 1) * (isqrt_spec(v) + 1),
    decreases v,
{
    if v == 0 {
        assert(isqrt_spec(v) == 0);
        assert(v < (0 + 1) * (0 + 1)) by (nonlinear_arith)
            requires
                v == 0,
        ;
    } else {
        lemma_isqrt_spec_bounds((v - 1) as nat);
        let r = isqrt_spec((v - 1) as nat);
        if (r + 1) * (r + 1) <= v {
            assert(isqrt_spec(v) == r + 1);
            assert(v < (r + 2) * (r + 2)) by (nonlinear_arith)
                requires
                    v - 1 < (r + 1) * (r + 1),
                    r >= 0,
            ;
        } else {
            assert(isqrt_spec(v) == r);
            assert(r * r <= v - 1);
        }
    }
}

proof fn lemma_isqrt_unique(v: nat, r: nat)
    requires
        r * r <= v,
        v < (r + 1) * (r + 1),
    ensures
        r == isqrt_spec(v),
{
    lemma_isqrt_spec_bounds(v);
    let s = isqrt_spec(v);
    if r < s {
        assert((r + 1) * (r + 1) <= s * s) by (nonlinear_arith)
            requires
                r + 1 <= s,
                r >= 0,
        ;
    }
    if s < r {
        assert((s + 1) * (s + 1) <= r * r) by (nonlinear_arith)
            requires
                s + 1 <= r,
                s >= 0,
        ;
    }
}

/// Integer square root of a `u64`, by binary search.
pub fn isqrt(v: u64) -> (r: u64)
    ensures
        r * r <= v,
        v < (r + 1) * (r + 1),
        r as nat == isqrt_spec(v as nat),
{
    if v == 0 {
        proof {
            assert((0 + 1) * (0 + 1) == 1) by (nonlinear_arith);
            lemma_isqrt_unique(v as nat, 0);
        }
        return 0;
    }
    let mut lo: u64 = 0;
    let mut hi: u64 = 4294967296;
    assert(v < hi * hi) by (nonlinear_arith)
        requires
            v <= u64::MAX,
            hi == 4294967296,
    ;
    while hi - lo > 1
        invariant
            lo < hi,
            hi <= 4294967296,
            lo * lo <= v,
            v < hi * hi,
        decreases hi - lo,
    {
        let mid = lo + (hi - lo) / 2;
        proof {
            assert(mid * mid <= u128::MAX) by (nonlinear_arith)
                requires
                    0 <= mid <= 4294967296,
            ;
        }
        if (mid as u128) * (mid as u128) <= v as u128 {
            lo = mid;
        } else {
            hi = mid;
        }
    }
    proof {
        lemma_isqrt_unique(v as nat, lo as nat);
    }
    lo
}

} // verus!
