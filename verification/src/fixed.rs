//! Fixed-point scalar arithmetic.
//!
//! A scalar is an `i64` counting units of `1/SCALE`. Sums, differences and
//! scaled products saturate at the `i64` range; quotients truncate toward
//! zero, as the corresponding machine operations do. Every executable
//! operation here is total and its result is pinned exactly by a spec twin.

use vstd::arithmetic::div_mod::{
    lemma_div_multiples_vanish, lemma_div_nonincreasing, lemma_div_pos_is_pos,
    lemma_fundamental_div_mod, lemma_mod_division_less_than_divisor,
};
use vstd::arithmetic::mul::lemma_mul_strictly_positive;
use vstd::prelude::*;

verus! {

/// Number of fixed-point units in one whole unit.
pub const SCALE: i64 = 65536;

/// Saturate an unbounded integer into the `i64` range.
pub open spec fn sat_i64(x: int) -> int {
    if x > i64::MAX {
        i64::MAX as int
    } else if x < i64::MIN {
        i64::MIN as int
    } else {
        x
    }
}

/// Magnitude of an integer.
pub open spec fn mag(x: int) -> int {
    if x < 0 {
        -x
    } else {
        x
    }
}

/// Truncating (round-toward-zero) division; zero when the divisor is zero.
pub open spec fn quot(a: int, b: int) -> int {
    if b == 0 {
        0
    } else if a == 0 {
        0
    } else if a > 0 && b > 0 {
        a / b
    } else if a < 0 && b < 0 {
        (a * -1) / (b * -1)
    } else if a < 0 {
        ((a * -1) / b) * -1
    } else {
        (a / (b * -1)) * -1
    }
}

/// Fixed-point product: `a·b / SCALE`, truncated, saturated.
pub open spec fn mul_fx(a: int, b: int) -> int {
    sat_i64(quot(a * b, SCALE as int))
}

/// Fixed-point quotient: `a·SCALE / b`, truncated, saturated; zero when `b` is zero.
pub open spec fn div_fx(a: int, b: int) -> int {
    sat_i64(quot(a * (SCALE as int), b))
}

/// Saturating sum.
pub open spec fn add_sat(a: int, b: int) -> int {
    sat_i64(a + b)
}

/// Saturating difference.
pub open spec fn sub_sat(a: int, b: int) -> int {
    sat_i64(a - b)
}

/// Saturating negation.
pub open spec fn neg_sat(a: int) -> int {
    sat_i64(-a)
}

/// A truncating quotient is no larger in magnitude than its dividend.
pub proof fn lemma_quot_mag(a: int, b: int)
    requires
        b != 0,
    ensures
        mag(quot(a, b)) <= mag(a),
        a >= 0 && b > 0 ==> quot(a, b) >= 0,
        a <= 0 && b > 0 ==> quot(a, b) <= 0,
{
    if a == 0 {
    } else {
        let na = mag(a);
        let nb = mag(b);
        lemma_div_nonincreasing(na, nb);
        lemma_div_pos_is_pos(na, nb);
    }
}

/// Scaling by a positive factor and dividing it away returns the argument.
pub proof fn lemma_quot_scale(a: int, s: int)
    requires
        s > 0,
    ensures
        quot(a * s, s) == a,
{
    if a == 0 {
        assert(a * s == 0) by (nonlinear_arith)
            requires
                a == 0,
        ;
    } else if a > 0 {
        lemma_mul_strictly_positive(a, s);
        lemma_div_multiples_vanish(a, s);
        assert(a * s == s * a) by (nonlinear_arith);

    } else {
        assert(a * s < 0 && (a * s) * -1 == (-a) * s) by (nonlinear_arith)
            requires
                a < 0,
                s > 0,
        ;
        lemma_div_multiples_vanish(-a, s);
        assert((-a) * s == s * (-a)) by (nonlinear_arith);
    }
}

/// A nonnegative dividend sits within one divisor of its rounded product.
pub proof fn lemma_quot_floor(a: int, b: int)
    requires
        0 <= a,
        0 < b,
    ensures
        b * quot(a, b) <= a < b * quot(a, b) + b,
{
    if a == 0 {
        assert(b * 0 == 0) by (nonlinear_arith);
    } else {
        lemma_fundamental_div_mod(a, b);
        lemma_mod_division_less_than_divisor(a, b);
    }
}

/// The truncating quotient leaves a remainder smaller than the divisor.
pub proof fn lemma_quot_rem(a: int, b: int)
    requires
        0 < b,
    ensures
        mag(a - b * quot(a, b)) < b,
        a >= 0 ==> 0 <= a - b * quot(a, b),
        a <= 0 ==> a - b * quot(a, b) <= 0,
{
    if a >= 0 {
        lemma_quot_floor(a, b);
    } else {
        lemma_quot_floor(-a, b);
        let d = quot(-a, b);
        assert(quot(a, b) == d * -1);
        assert(b * (d * -1) == -(b * d)) by (nonlinear_arith);
    }
}

/// Clamp a wide intermediate into the `i64` range.
fn clamp_i64(w: i128) -> (r: i64)
    ensures
        r == sat_i64(w as int),
{
    if w > i64::MAX as i128 {
        i64::MAX
    } else if w < i64::MIN as i128 {
        i64::MIN
    } else {
        w as i64
    }
}

/// Truncating division on wide intermediates.
fn div_trunc_i128(a: i128, b: i128) -> (r: i128)
    requires
        b != 0,
        a != i128::MIN,
    ensures
        r == quot(a as int, b as int),
{
    proof {
        lemma_quot_mag(a as int, b as int);
    }
    match a.checked_div(b) {
        Some(q) => q,
        None => {
            proof {
                assert(false);
            }
            0
        },
    }
}

/// Saturating fixed-point sum.
pub fn fx_add(a: i64, b: i64) -> (r: i64)
    ensures
        r == add_sat(a as int, b as int),
{
    let w: i128 = a as i128 + b as i128;
    clamp_i64(w)
}

/// Saturating fixed-point difference.
pub fn fx_sub(a: i64, b: i64) -> (r: i64)
    ensures
        r == sub_sat(a as int, b as int),
{
    let w: i128 = a as i128 - b as i128;
    clamp_i64(w)
}

/// Saturating fixed-point negation.
pub fn fx_neg(a: i64) -> (r: i64)
    ensures
        r == neg_sat(a as int),
{
    let w: i128 = -(a as i128);
    clamp_i64(w)
}

/// Fixed-point product.
pub fn fx_mul(a: i64, b: i64) -> (r: i64)
    ensures
        r == mul_fx(a as int, b as int),
{
    let ai: i128 = a as i128;
    let bi: i128 = b as i128;
    proof {
        assert(-0x40000000000000000000000000000000int <= (ai as int) * (bi as int)
            <= 0x40000000000000000000000000000000int) by (nonlinear_arith)
            requires
                -0x8000000000000000int <= ai as int <= 0x7fffffffffffffffint,
                -0x8000000000000000int <= bi as int <= 0x7fffffffffffffffint,
        ;
    }
    let p: i128 = ai * bi;
    let q = div_trunc_i128(p, SCALE as i128);
    clamp_i64(q)
}

/// Fixed-point quotient; returns zero for a zero divisor.
pub fn fx_div(a: i64, b: i64) -> (r: i64)
    ensures
        r == div_fx(a as int, b as int),
{
    if b == 0 {
        0
    } else {
        let p: i128 = (a as i128) * 65536i128;
        let q = div_trunc_i128(p, b as i128);
        clamp_i64(q)
    }
}

/// A whole number on the fixed-point grid.
pub open spec fn int_fx(n: int) -> int {
    sat_i64(n * (SCALE as int))
}

/// Convert a whole number to the fixed-point grid.
pub fn fx_from_int(n: i64) -> (r: i64)
    ensures
        r == int_fx(n as int),
{
    let w: i128 = (n as i128) * 65536i128;
    clamp_i64(w)
}

/// `r` is the integer square root of `n`, rounded down.
pub open spec fn is_sqrt_floor(n: int, r: int) -> bool {
    0 <= r && r * r <= n && n < (r + 1) * (r + 1)
}

/// The integer square root, rounded down.
pub open spec fn sqrt_floor(n: int) -> int {
    choose|r: int| is_sqrt_floor(n, r)
}

proof fn lemma_sqrt_exists(n: nat)
    ensures
        exists|r: int| is_sqrt_floor(n as int, r),
    decreases n,
{
    if n == 0 {
        assert(is_sqrt_floor(0, 0));
    } else {
        lemma_sqrt_exists((n - 1) as nat);
        let m: int = n as int - 1;
        let r = choose|r: int| is_sqrt_floor(m, r);
        if (r + 1) * (r + 1) <= n {
            assert((r + 1) * (r + 1) < (r + 2) * (r + 2)) by (nonlinear_arith)
                requires
                    r >= 0,
            ;
            assert(is_sqrt_floor(n as int, r + 1));
        } else {
            assert(is_sqrt_floor(n as int, r));
        }
    }
}

/// Any two square-root witnesses for the same radicand agree.
pub proof fn lemma_sqrt_unique(n: int, r1: int, r2: int)
    requires
        is_sqrt_floor(n, r1),
        is_sqrt_floor(n, r2),
    ensures
        r1 == r2,
{
    assert(r1 == r2) by (nonlinear_arith)
        requires
            0 <= r1 && r1 * r1 <= n && n < (r1 + 1) * (r1 + 1),
            0 <= r2 && r2 * r2 <= n && n < (r2 + 1) * (r2 + 1),
    ;
}

/// A witness determines the value of `sqrt_floor`.
pub proof fn lemma_sqrt_floor_is(n: int, r: int)
    requires
        0 <= n,
        is_sqrt_floor(n, r),
    ensures
        sqrt_floor(n) == r,
{
    lemma_sqrt_exists(n as nat);
    let w = choose|w: int| is_sqrt_floor(n, w);
    lemma_sqrt_unique(n, w, r);
}

/// `sqrt_floor` of a nonnegative radicand is a genuine square root.
pub proof fn lemma_sqrt_floor_props(n: int)
    requires
        0 <= n,
    ensures
        is_sqrt_floor(n, sqrt_floor(n)),
{
    lemma_sqrt_exists(n as nat);
}

/// Integer square root of a wide unsigned value, rounded down.
pub fn isqrt_u128(n: u128) -> (r: u64)
    ensures
        is_sqrt_floor(n as int, r as int),
{
    let mut lo: u128 = 0;
    let mut hi: u128 = 0x10000000000000000u128;
    proof {
        assert((0x10000000000000000int) * (0x10000000000000000int)
            == 0x100000000000000000000000000000000int) by (nonlinear_arith);
    }
    while lo + 1 < hi
        invariant
            lo < hi <= 0x10000000000000000u128,
            (lo as int) * (lo as int) <= n as int,
            (n as int) < (hi as int) * (hi as int),
        decreases hi - lo,
    {
        let mid: u128 = lo + (hi - lo) / 2;
        proof {
            assert((mid as int) * (mid as int) <= 0xffffffffffffffffffffffffffffffffint)
                by (nonlinear_arith)
                requires
                    0 <= mid as int <= 0xffffffffffffffffint,
            ;
        }
        let sq: u128 = mid * mid;
        if sq <= n {
            lo = mid;
        } else {
            hi = mid;
        }
    }
    lo as u64
}

/// Fixed-point square root of a nonnegative scalar.
pub fn fx_sqrt(a: i64) -> (r: i64)
    requires
        0 <= a,
    ensures
        r == sqrt_floor(a * (SCALE as int)),
        is_sqrt_floor(a * (SCALE as int), r as int),
{
    let n: u128 = (a as u128) * 65536;
    let s = isqrt_u128(n);
    proof {
        assert((s as int) < 0x10000000000int) by (nonlinear_arith)
            requires
                0 <= s as int,
                (s as int) * (s as int) <= n as int,
                n as int <= 0x80000000000000000000int,
        ;
        lemma_sqrt_floor_is(n as int, s as int);
    }
    s as i64
}

} // verus!
