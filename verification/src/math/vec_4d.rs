//! Homogeneous 4-component vectors.

use crate::fixed::{
    add_sat, div_fx, fx_add, fx_div, fx_mul, fx_neg, fx_sqrt, fx_sub, lemma_quot_mag, mul_fx,
    neg_sat, sqrt_floor, sub_sat, SCALE,
};
use vstd::prelude::*;

verus! {

/// A homogeneous point or direction: four fixed-point components.
#[derive(Clone, Copy, Debug)]
pub struct Vec4d {
    pub x: i64,
    pub y: i64,
    pub z: i64,
    pub w: i64,
}

/// Component-wise saturating sum.
pub open spec fn add4(a: Vec4d, b: Vec4d) -> Vec4d {
    Vec4d {
        x: add_sat(a.x as int, b.x as int) as i64,
        y: add_sat(a.y as int, b.y as int) as i64,
        z: add_sat(a.z as int, b.z as int) as i64,
        w: add_sat(a.w as int, b.w as int) as i64,
    }
}

/// Component-wise saturating difference.
pub open spec fn sub4(a: Vec4d, b: Vec4d) -> Vec4d {
    Vec4d {
        x: sub_sat(a.x as int, b.x as int) as i64,
        y: sub_sat(a.y as int, b.y as int) as i64,
        z: sub_sat(a.z as int, b.z as int) as i64,
        w: sub_sat(a.w as int, b.w as int) as i64,
    }
}

/// Component-wise saturating negation.
pub open spec fn neg4(a: Vec4d) -> Vec4d {
    Vec4d {
        x: neg_sat(a.x as int) as i64,
        y: neg_sat(a.y as int) as i64,
        z: neg_sat(a.z as int) as i64,
        w: neg_sat(a.w as int) as i64,
    }
}

/// Component-wise scaling by a fixed-point factor.
pub open spec fn scale4(a: Vec4d, k: int) -> Vec4d {
    Vec4d {
        x: mul_fx(a.x as int, k) as i64,
        y: mul_fx(a.y as int, k) as i64,
        z: mul_fx(a.z as int, k) as i64,
        w: mul_fx(a.w as int, k) as i64,
    }
}

/// Component-wise division by a fixed-point divisor (zero divisor yields zero).
pub open spec fn div4(a: Vec4d, k: int) -> Vec4d {
    Vec4d {
        x: div_fx(a.x as int, k) as i64,
        y: div_fx(a.y as int, k) as i64,
        z: div_fx(a.z as int, k) as i64,
        w: div_fx(a.w as int, k) as i64,
    }
}

/// Squared magnitude, accumulated with saturating sums of scaled products.
pub open spec fn sqr4(a: Vec4d) -> int {
    add_sat(
        add_sat(
            add_sat(mul_fx(a.x as int, a.x as int), mul_fx(a.y as int, a.y as int)),
            mul_fx(a.z as int, a.z as int),
        ),
        mul_fx(a.w as int, a.w as int),
    )
}

/// The magnitude of the difference rounds to zero: the vectors coincide
/// up to the resolution of the fixed-point grid.
pub open spec fn near4(a: Vec4d, b: Vec4d) -> bool {
    sqr4(sub4(a, b)) == 0
}

/// A scaled square is nonnegative.
pub proof fn lemma_mul_fx_sq_nonneg(x: int)
    ensures
        mul_fx(x, x) >= 0,
{
    assert(x * x >= 0) by (nonlinear_arith);
    lemma_quot_mag(x * x, SCALE as int);
}

/// A squared magnitude is nonnegative.
pub proof fn lemma_sqr4_nonneg(a: Vec4d)
    ensures
        sqr4(a) >= 0,
{
    lemma_mul_fx_sq_nonneg(a.x as int);
    lemma_mul_fx_sq_nonneg(a.y as int);
    lemma_mul_fx_sq_nonneg(a.z as int);
    lemma_mul_fx_sq_nonneg(a.w as int);
}

impl Vec4d {
    /// Build a vector from its components.
    pub fn new(x: i64, y: i64, z: i64, w: i64) -> (r: Vec4d)
        ensures
            r == (Vec4d { x, y, z, w }),
    {
        Vec4d { x, y, z, w }
    }

    /// First spatial component.
    pub fn x(&self) -> (r: i64)
        ensures
            r == self.x,
    {
        self.x
    }

    /// Second spatial component.
    pub fn y(&self) -> (r: i64)
        ensures
            r == self.y,
    {
        self.y
    }

    /// Third spatial component.
    pub fn z(&self) -> (r: i64)
        ensures
            r == self.z,
    {
        self.z
    }

    /// Homogeneous component.
    pub fn w(&self) -> (r: i64)
        ensures
            r == self.w,
    {
        self.w
    }

    /// Squared magnitude.
    pub fn sqr_abs(&self) -> (r: i64)
        ensures
            r == sqr4(*self),
            r >= 0,
    {
        proof {
            lemma_sqr4_nonneg(*self);
        }
        fx_add(
            fx_add(fx_add(fx_mul(self.x, self.x), fx_mul(self.y, self.y)), fx_mul(self.z, self.z)),
            fx_mul(self.w, self.w),
        )
    }

    /// Magnitude, rounded down to the fixed-point grid.
    pub fn abs(&self) -> (r: i64)
        ensures
            r == sqrt_floor(sqr4(*self) * (SCALE as int)),
            r >= 0,
    {
        let s = self.sqr_abs();
        fx_sqrt(s)
    }

    /// Direction of the vector with magnitude one; the zero vector when the
    /// magnitude rounds to zero.
    pub fn normalized(&self) -> (r: Vec4d)
        ensures
            r == norm4(*self),
    {
        let q = self.abs();
        if q > 0 {
            Vec4d {
                x: fx_div(self.x, q),
                y: fx_div(self.y, q),
                z: fx_div(self.z, q),
                w: fx_div(self.w, q),
            }
        } else {
            Vec4d { x: 0, y: 0, z: 0, w: 0 }
        }
    }

    /// Component-wise sum.
    pub fn add(&self, rhs: &Vec4d) -> (r: Vec4d)
        ensures
            r == add4(*self, *rhs),
    {
        Vec4d {
            x: fx_add(self.x, rhs.x),
            y: fx_add(self.y, rhs.y),
            z: fx_add(self.z, rhs.z),
            w: fx_add(self.w, rhs.w),
        }
    }

    /// Component-wise difference.
    pub fn sub(&self, rhs: &Vec4d) -> (r: Vec4d)
        ensures
            r == sub4(*self, *rhs),
    {
        Vec4d {
            x: fx_sub(self.x, rhs.x),
            y: fx_sub(self.y, rhs.y),
            z: fx_sub(self.z, rhs.z),
            w: fx_sub(self.w, rhs.w),
        }
    }

    /// Component-wise negation.
    pub fn neg(&self) -> (r: Vec4d)
        ensures
            r == neg4(*self),
    {
        Vec4d { x: fx_neg(self.x), y: fx_neg(self.y), z: fx_neg(self.z), w: fx_neg(self.w) }
    }

    /// Scale every component by a fixed-point factor.
    pub fn mul(&self, k: i64) -> (r: Vec4d)
        ensures
            r == scale4(*self, k as int),
    {
        Vec4d {
            x: fx_mul(self.x, k),
            y: fx_mul(self.y, k),
            z: fx_mul(self.z, k),
            w: fx_mul(self.w, k),
        }
    }

    /// Divide every component by a fixed-point divisor. A zero divisor is a
    /// programming error in the callers, so it is excluded here.
    pub fn div(&self, k: i64) -> (r: Vec4d)
        requires
            k != 0,
        ensures
            r == div4(*self, k as int),
    {
        Vec4d {
            x: fx_div(self.x, k),
            y: fx_div(self.y, k),
            z: fx_div(self.z, k),
            w: fx_div(self.w, k),
        }
    }
}

/// Direction of the vector with magnitude one; zero when the magnitude
/// rounds to zero.
pub open spec fn norm4(a: Vec4d) -> Vec4d {
    let q = sqrt_floor(sqr4(a) * (SCALE as int));
    if q > 0 {
        div4(a, q)
    } else {
        Vec4d { x: 0, y: 0, z: 0, w: 0 }
    }
}

impl PartialEq for Vec4d {
    /// Approximate equality: the difference has zero squared magnitude on
    /// the fixed-point grid.
    fn eq(&self, other: &Vec4d) -> (r: bool) {
        let d = self.sub(other);
        d.sqr_abs() == 0
    }
}

impl vstd::std_specs::cmp::PartialEqSpecImpl for Vec4d {
    open spec fn obeys_eq_spec() -> bool {
        true
    }

    open spec fn eq_spec(&self, other: &Vec4d) -> bool {
        near4(*self, *other)
    }
}

} // verus!
