//! 3-component vectors.

use crate::fixed::{
    mag, quot,
    add_sat, div_fx, fx_add, fx_div, fx_mul, fx_neg, fx_sqrt, fx_sub, mul_fx, neg_sat, sqrt_floor,
    sub_sat, SCALE,
};
use crate::math::vec_4d::{lemma_mul_fx_sq_nonneg, Vec4d};
use vstd::prelude::*;

verus! {

/// A spatial vector: three fixed-point components.
#[derive(Clone, Copy, Debug)]
pub struct Vec3d {
    pub x: i64,
    pub y: i64,
    pub z: i64,
}

/// Component-wise saturating sum.
pub open spec fn add3(a: Vec3d, b: Vec3d) -> Vec3d {
    Vec3d {
        x: add_sat(a.x as int, b.x as int) as i64,
        y: add_sat(a.y as int, b.y as int) as i64,
        z: add_sat(a.z as int, b.z as int) as i64,
    }
}

/// Component-wise saturating difference.
pub open spec fn sub3(a: Vec3d, b: Vec3d) -> Vec3d {
    Vec3d {
        x: sub_sat(a.x as int, b.x as int) as i64,
        y: sub_sat(a.y as int, b.y as int) as i64,
        z: sub_sat(a.z as int, b.z as int) as i64,
    }
}

/// Component-wise saturating negation.
pub open spec fn neg3(a: Vec3d) -> Vec3d {
    Vec3d {
        x: neg_sat(a.x as int) as i64,
        y: neg_sat(a.y as int) as i64,
        z: neg_sat(a.z as int) as i64,
    }
}

/// Component-wise scaling by a fixed-point factor.
pub open spec fn scale3(a: Vec3d, k: int) -> Vec3d {
    Vec3d {
        x: mul_fx(a.x as int, k) as i64,
        y: mul_fx(a.y as int, k) as i64,
        z: mul_fx(a.z as int, k) as i64,
    }
}

/// Component-wise division by a fixed-point divisor (zero divisor yields zero).
pub open spec fn div3(a: Vec3d, k: int) -> Vec3d {
    Vec3d {
        x: div_fx(a.x as int, k) as i64,
        y: div_fx(a.y as int, k) as i64,
        z: div_fx(a.z as int, k) as i64,
    }
}

/// Squared magnitude, accumulated with saturating sums of scaled products.
pub open spec fn sqr3(a: Vec3d) -> int {
    add_sat(
        add_sat(mul_fx(a.x as int, a.x as int), mul_fx(a.y as int, a.y as int)),
        mul_fx(a.z as int, a.z as int),
    )
}

/// Fixed-point dot product.
pub open spec fn dot3(a: Vec3d, b: Vec3d) -> int {
    add_sat(
        add_sat(mul_fx(a.x as int, b.x as int), mul_fx(a.y as int, b.y as int)),
        mul_fx(a.z as int, b.z as int),
    )
}

/// Fixed-point cross product.
pub open spec fn cross3(a: Vec3d, b: Vec3d) -> Vec3d {
    Vec3d {
        x: sub_sat(mul_fx(a.y as int, b.z as int), mul_fx(b.y as int, a.z as int)) as i64,
        y: sub_sat(mul_fx(a.z as int, b.x as int), mul_fx(b.z as int, a.x as int)) as i64,
        z: sub_sat(mul_fx(a.x as int, b.y as int), mul_fx(b.x as int, a.y as int)) as i64,
    }
}

/// Magnitude, rounded down to the fixed-point grid.
pub open spec fn abs3(a: Vec3d) -> int {
    sqrt_floor(sqr3(a) * (SCALE as int))
}

/// Direction of the vector with magnitude one; zero when the magnitude
/// rounds to zero.
pub open spec fn norm3(a: Vec3d) -> Vec3d {
    let q = abs3(a);
    if q > 0 {
        div3(a, q)
    } else {
        Vec3d { x: 0, y: 0, z: 0 }
    }
}

/// The magnitude of the difference rounds to zero: the vectors coincide
/// up to the resolution of the fixed-point grid.
pub open spec fn near3(a: Vec3d, b: Vec3d) -> bool {
    sqr3(sub3(a, b)) == 0
}

/// The spatial part of a homogeneous point.
pub open spec fn from4(v: Vec4d) -> Vec3d {
    Vec3d { x: v.x, y: v.y, z: v.z }
}

/// A spatial vector as a homogeneous point with unit weight.
pub open spec fn point4(v: Vec3d) -> Vec4d {
    Vec4d { x: v.x, y: v.y, z: v.z, w: SCALE }
}

/// A squared magnitude is nonnegative.
pub proof fn lemma_sqr3_nonneg(a: Vec3d)
    ensures
        sqr3(a) >= 0,
{
    lemma_mul_fx_sq_nonneg(a.x as int);
    lemma_mul_fx_sq_nonneg(a.y as int);
    lemma_mul_fx_sq_nonneg(a.z as int);
}

/// Relies on `rand::Rng::gen_range` over `0..SCALE`: the sample is drawn
/// from the half-open range, so it lies in `[0, SCALE)`.
#[verifier::external_body]
fn sample_unit_fx() -> (r: i64)
    ensures
        0 <= r < SCALE,
{
    rand::Rng::gen_range(&mut rand::thread_rng(), 0i64..65536i64)
}

impl Vec3d {
    /// Build a vector from its components.
    pub fn new(x: i64, y: i64, z: i64) -> (r: Vec3d)
        ensures
            r == (Vec3d { x, y, z }),
    {
        Vec3d { x, y, z }
    }

    /// First component.
    pub fn x(&self) -> (r: i64)
        ensures
            r == self.x,
    {
        self.x
    }

    /// Second component.
    pub fn y(&self) -> (r: i64)
        ensures
            r == self.y,
    {
        self.y
    }

    /// Third component.
    pub fn z(&self) -> (r: i64)
        ensures
            r == self.z,
    {
        self.z
    }

    /// Squared magnitude.
    pub fn sqr_abs(&self) -> (r: i64)
        ensures
            r == sqr3(*self),
            r >= 0,
    {
        proof {
            lemma_sqr3_nonneg(*self);
        }
        fx_add(fx_add(fx_mul(self.x, self.x), fx_mul(self.y, self.y)), fx_mul(self.z, self.z))
    }

    /// Magnitude, rounded down to the fixed-point grid.
    pub fn abs(&self) -> (r: i64)
        ensures
            r == abs3(*self),
            r >= 0,
    {
        let s = self.sqr_abs();
        fx_sqrt(s)
    }

    /// Direction of the vector with magnitude one; the zero vector when the
    /// magnitude rounds to zero.
    pub fn normalized(&self) -> (r: Vec3d)
        ensures
            r == norm3(*self),
    {
        let q = self.abs();
        if q > 0 {
            Vec3d { x: fx_div(self.x, q), y: fx_div(self.y, q), z: fx_div(self.z, q) }
        } else {
            Vec3d { x: 0, y: 0, z: 0 }
        }
    }

    /// Dot product.
    pub fn dot(&self, rhs: &Vec3d) -> (r: i64)
        ensures
            r == dot3(*self, *rhs),
    {
        fx_add(
            fx_add(fx_mul(self.x, rhs.x), fx_mul(self.y, rhs.y)),
            fx_mul(self.z, rhs.z),
        )
    }

    /// Cross product.
    pub fn cross(&self, rhs: &Vec3d) -> (r: Vec3d)
        ensures
            r == cross3(*self, *rhs),
    {
        Vec3d {
            x: fx_sub(fx_mul(self.y, rhs.z), fx_mul(rhs.y, self.z)),
            y: fx_sub(fx_mul(self.z, rhs.x), fx_mul(rhs.z, self.x)),
            z: fx_sub(fx_mul(self.x, rhs.y), fx_mul(rhs.x, self.y)),
        }
    }

    /// Drop the homogeneous component of a 4-component point.
    pub fn from_vec4d(v: &Vec4d) -> (r: Vec3d)
        ensures
            r == (Vec3d { x: v.x, y: v.y, z: v.z }),
    {
        Vec3d { x: v.x, y: v.y, z: v.z }
    }

    /// Promote to a homogeneous point with unit weight.
    pub fn make_point_4d(&self) -> (r: Vec4d)
        ensures
            r == (Vec4d { x: self.x, y: self.y, z: self.z, w: SCALE }),
    {
        Vec4d { x: self.x, y: self.y, z: self.z, w: SCALE }
    }

    /// A vector with every component drawn from `[0, 1)`.
    pub fn random() -> (r: Vec3d)
        ensures
            0 <= r.x < SCALE,
            0 <= r.y < SCALE,
            0 <= r.z < SCALE,
    {
        Vec3d { x: sample_unit_fx(), y: sample_unit_fx(), z: sample_unit_fx() }
    }

    /// Component-wise sum.
    pub fn add(&self, rhs: &Vec3d) -> (r: Vec3d)
        ensures
            r == add3(*self, *rhs),
    {
        Vec3d { x: fx_add(self.x, rhs.x), y: fx_add(self.y, rhs.y), z: fx_add(self.z, rhs.z) }
    }

    /// Component-wise difference.
    pub fn sub(&self, rhs: &Vec3d) -> (r: Vec3d)
        ensures
            r == sub3(*self, *rhs),
    {
        Vec3d { x: fx_sub(self.x, rhs.x), y: fx_sub(self.y, rhs.y), z: fx_sub(self.z, rhs.z) }
    }

    /// Component-wise negation.
    pub fn neg(&self) -> (r: Vec3d)
        ensures
            r == neg3(*self),
    {
        Vec3d { x: fx_neg(self.x), y: fx_neg(self.y), z: fx_neg(self.z) }
    }

    /// Scale every component by a fixed-point factor.
    pub fn mul(&self, k: i64) -> (r: Vec3d)
        ensures
            r == scale3(*self, k as int),
    {
        Vec3d { x: fx_mul(self.x, k), y: fx_mul(self.y, k), z: fx_mul(self.z, k) }
    }

    /// Divide every component by a fixed-point divisor. A zero divisor is a
    /// programming error in the callers, so it is excluded here.
    pub fn div(&self, k: i64) -> (r: Vec3d)
        requires
            k != 0,
        ensures
            r == div3(*self, k as int),
    {
        Vec3d { x: fx_div(self.x, k), y: fx_div(self.y, k), z: fx_div(self.z, k) }
    }
}

impl PartialEq for Vec3d {
    /// Approximate equality: the difference has zero squared magnitude on
    /// the fixed-point grid.
    fn eq(&self, other: &Vec3d) -> (r: bool) {
        let d = self.sub(other);
        d.sqr_abs() == 0
    }
}

impl vstd::std_specs::cmp::PartialEqSpecImpl for Vec3d {
    open spec fn obeys_eq_spec() -> bool {
        true
    }

    open spec fn eq_spec(&self, other: &Vec3d) -> bool {
        near3(*self, *other)
    }
}


/// Normalization by cases at the grid's epsilon: a vector whose squared
/// magnitude rounds to zero normalizes to the zero vector (never a
/// division by a vanishing magnitude); any other vector is divided by its
/// positive magnitude.
pub proof fn lemma_normalized_cases(v: Vec3d)
    ensures
        sqr3(v) == 0 ==> norm3(v) == (Vec3d { x: 0, y: 0, z: 0 }),
        sqr3(v) > 0 ==> abs3(v) > 0 && norm3(v) == div3(v, abs3(v)),
{
    lemma_sqr3_nonneg(v);
    if sqr3(v) == 0 {
        assert(sqr3(v) * (SCALE as int) == 0) by (nonlinear_arith)
            requires
                sqr3(v) == 0,
        ;
        crate::fixed::lemma_sqrt_floor_is(0, 0);
    } else {
        let n = sqr3(v) * (SCALE as int);
        assert(sqr3(v) * (SCALE as int) >= SCALE) by (nonlinear_arith)
            requires
                sqr3(v) >= 1,
        ;
        crate::fixed::lemma_sqrt_floor_props(n);
        let q = sqrt_floor(n);
        assert(q > 0) by (nonlinear_arith)
            requires
                0 <= q,
                n < (q + 1) * (q + 1),
                n >= 65536,
        ;
    }
}

/// Normalization keeps the direction: each component of the normalized
/// vector carries its original sign (or vanishes), so the result points
/// into the same orthant as the argument.
pub proof fn lemma_normalized_keeps_signs(v: Vec3d)
    ensures
        v.x > 0 ==> norm3(v).x >= 0,
        v.x < 0 ==> norm3(v).x <= 0,
        v.x == 0 ==> norm3(v).x == 0,
        v.y > 0 ==> norm3(v).y >= 0,
        v.y < 0 ==> norm3(v).y <= 0,
        v.y == 0 ==> norm3(v).y == 0,
        v.z > 0 ==> norm3(v).z >= 0,
        v.z < 0 ==> norm3(v).z <= 0,
        v.z == 0 ==> norm3(v).z == 0,
{
    let q = abs3(v);
    if q > 0 {
        lemma_div_fx_sign(v.x as int, q);
        lemma_div_fx_sign(v.y as int, q);
        lemma_div_fx_sign(v.z as int, q);
    }
}

/// A scaled quotient by a positive divisor keeps the dividend's sign.
proof fn lemma_div_fx_sign(x: int, q: int)
    requires
        q > 0,
    ensures
        x > 0 ==> div_fx(x, q) >= 0,
        x < 0 ==> div_fx(x, q) <= 0,
        x == 0 ==> div_fx(x, q) == 0,
{
    crate::fixed::lemma_quot_mag(x * (SCALE as int), q);
    if x > 0 {
        assert(x * (SCALE as int) > 0) by (nonlinear_arith)
            requires
                x > 0,
        ;
    } else if x < 0 {
        assert(x * (SCALE as int) < 0) by (nonlinear_arith)
            requires
                x < 0,
        ;
    } else {
        assert(x * (SCALE as int) == 0) by (nonlinear_arith)
            requires
                x == 0,
        ;
    }
}

/// Exact unit magnitude is unreachable on a fixed-point grid, but the
/// squared magnitude of a normalized vector stays within a few grid units
/// of one: for any vector of magnitude at least one whose components are
/// small enough that no squared term saturates, the normalized vector's
/// squared magnitude lies in `[SCALE - 9, SCALE + 11]`.
pub proof fn lemma_normalized_magnitude(v: Vec3d)
    requires
        abs3(v) >= SCALE,
        mag(v.x as int) <= 0x2000000000,
        mag(v.y as int) <= 0x2000000000,
        mag(v.z as int) <= 0x2000000000,
    ensures
        SCALE - 9 <= sqr3(norm3(v)) <= SCALE + 11,
{
    let s0 = SCALE as int;
    let xx = v.x as int;
    let yy = v.y as int;
    let zz = v.z as int;
    // The three squared components and their scaled, truncated versions.
    assert(0 <= xx * xx <= 0x4000000000000000000 && 0 <= yy * yy <= 0x4000000000000000000
        && 0 <= zz * zz <= 0x4000000000000000000) by (nonlinear_arith)
        requires
            mag(xx) <= 0x2000000000,
            mag(yy) <= 0x2000000000,
            mag(zz) <= 0x2000000000,
    ;
    let mx = quot(xx * xx, s0);
    let my = quot(yy * yy, s0);
    let mz = quot(zz * zz, s0);
    crate::fixed::lemma_quot_floor(xx * xx, s0);
    crate::fixed::lemma_quot_floor(yy * yy, s0);
    crate::fixed::lemma_quot_floor(zz * zz, s0);
    assert(0 <= mx <= 0x400000000000000 && 0 <= my <= 0x400000000000000 && 0 <= mz
        <= 0x400000000000000) by (nonlinear_arith)
        requires
            65536 * mx <= xx * xx <= 0x4000000000000000000 && 0 <= xx * xx,
            65536 * my <= yy * yy <= 0x4000000000000000000 && 0 <= yy * yy,
            65536 * mz <= zz * zz <= 0x4000000000000000000 && 0 <= zz * zz,
            s0 == 65536,
            65536 * mx + 65536 > xx * xx,
            65536 * my + 65536 > yy * yy,
            65536 * mz + 65536 > zz * zz,
    ;
    // No saturating step fires, so the squared magnitude is the plain sum.
    let s3 = sqr3(v);
    assert(s3 == mx + my + mz);
    let ssum = xx * xx + yy * yy + zz * zz;
    assert(s0 * s3 <= ssum && ssum < s0 * s3 + 3 * s0);
    // The magnitude is the rounded-down square root of the scaled sum.
    crate::fixed::lemma_sqrt_floor_props(s3 * s0);
    let q = abs3(v);
    assert(q * q <= s3 * s0 && s3 * s0 < (q + 1) * (q + 1));
    assert(s3 * s0 == s0 * s3) by (nonlinear_arith);
    assert(q * q <= ssum) by (nonlinear_arith)
        requires
            q * q <= s0 * s3,
            s0 * s3 <= ssum,
    ;
    assert(ssum < q * q + 5 * q) by (nonlinear_arith)
        requires
            ssum < s0 * s3 + 3 * s0,
            s0 * s3 < (q + 1) * (q + 1),
            s0 == 65536,
            q >= 65536,
    ;
    // Hence every component is at most two units beyond the magnitude.
    assert(mag(xx) <= q + 2 && mag(yy) <= q + 2 && mag(zz) <= q + 2) by (nonlinear_arith)
        requires
            xx * xx <= ssum && yy * yy <= ssum && zz * zz <= ssum,
            0 <= xx * xx && 0 <= yy * yy && 0 <= zz * zz,
            ssum < q * q + 5 * q,
            q >= 65536,
    ;
    // The normalized components and their division remainders.
    let cx = quot(xx * s0, q);
    let cy = quot(yy * s0, q);
    let cz = quot(zz * s0, q);
    crate::fixed::lemma_quot_rem(xx * s0, q);
    crate::fixed::lemma_quot_rem(yy * s0, q);
    crate::fixed::lemma_quot_rem(zz * s0, q);
    let ex = xx * s0 - q * cx;
    let ey = yy * s0 - q * cy;
    let ez = zz * s0 - q * cz;
    assert(mag(cx) <= 65539 && mag(cy) <= 65539 && mag(cz) <= 65539) by (nonlinear_arith)
        requires
            mag(xx) <= q + 2 && mag(yy) <= q + 2 && mag(zz) <= q + 2,
            mag(xx * s0 - q * cx) < q,
            mag(yy * s0 - q * cy) < q,
            mag(zz * s0 - q * cz) < q,
            s0 == 65536,
            q >= 65536,
    ;
    assert(norm3(v).x == cx && norm3(v).y == cy && norm3(v).z == cz);
    // Squares of the components, exactly, through the remainders.
    assert(q * q * (cx * cx) == (xx * s0) * (xx * s0) - 2 * (xx * s0) * ex + ex * ex)
        by (nonlinear_arith)
        requires
            q * cx == xx * s0 - ex,
    ;
    assert(q * q * (cy * cy) == (yy * s0) * (yy * s0) - 2 * (yy * s0) * ey + ey * ey)
        by (nonlinear_arith)
        requires
            q * cy == yy * s0 - ey,
    ;
    assert(q * q * (cz * cz) == (zz * s0) * (zz * s0) - 2 * (zz * s0) * ez + ez * ez)
        by (nonlinear_arith)
        requires
            q * cz == zz * s0 - ez,
    ;
    let csum = cx * cx + cy * cy + cz * cz;
    // Bound the mixed terms and the remainder squares.
    assert(mag(2 * (xx * s0) * ex) <= 2 * 65536 * ((q + 2) * q) && 0 <= ex * ex < q * q)
        by (nonlinear_arith)
        requires
            mag(xx) <= q + 2,
            mag(ex) < q,
            s0 == 65536,
            q >= 65536,
    ;
    assert(mag(2 * (yy * s0) * ey) <= 2 * 65536 * ((q + 2) * q) && 0 <= ey * ey < q * q)
        by (nonlinear_arith)
        requires
            mag(yy) <= q + 2,
            mag(ey) < q,
            s0 == 65536,
            q >= 65536,
    ;
    assert(mag(2 * (zz * s0) * ez) <= 2 * 65536 * ((q + 2) * q) && 0 <= ez * ez < q * q)
        by (nonlinear_arith)
        requires
            mag(zz) <= q + 2,
            mag(ez) < q,
            s0 == 65536,
            q >= 65536,
    ;
    assert((xx * s0) * (xx * s0) + (yy * s0) * (yy * s0) + (zz * s0) * (zz * s0) == 65536 * 65536
        * ssum) by (nonlinear_arith)
        requires
            s0 == 65536,
            ssum == xx * xx + yy * yy + zz * zz,
    ;
    // Assemble both bounds on the scaled square sum of the components.
    assert(q * q * (cx * cx) + q * q * (cy * cy) + q * q * (cz * cz) == q * q * csum)
        by (nonlinear_arith)
        requires
            csum == cx * cx + cy * cy + cz * cz,
    ;
    assert(q * q * csum >= 65536 * 65536 * ssum - 6 * 65536 * ((q + 2) * q)) by (nonlinear_arith)
        requires
            q * q * (cx * cx) + q * q * (cy * cy) + q * q * (cz * cz) == q * q * csum,
            q * q * (cx * cx) == (xx * s0) * (xx * s0) - 2 * (xx * s0) * ex + ex * ex,
            q * q * (cy * cy) == (yy * s0) * (yy * s0) - 2 * (yy * s0) * ey + ey * ey,
            q * q * (cz * cz) == (zz * s0) * (zz * s0) - 2 * (zz * s0) * ez + ez * ez,
            (xx * s0) * (xx * s0) + (yy * s0) * (yy * s0) + (zz * s0) * (zz * s0) == 65536 * 65536
                * ssum,
            mag(2 * (xx * s0) * ex) <= 2 * 65536 * ((q + 2) * q),
            mag(2 * (yy * s0) * ey) <= 2 * 65536 * ((q + 2) * q),
            mag(2 * (zz * s0) * ez) <= 2 * 65536 * ((q + 2) * q),
            0 <= ex * ex && 0 <= ey * ey && 0 <= ez * ez,
    ;
    assert(q * q * csum <= 65536 * 65536 * ssum + 6 * 65536 * ((q + 2) * q) + 3 * (q * q))
        by (nonlinear_arith)
        requires
            q * q * (cx * cx) + q * q * (cy * cy) + q * q * (cz * cz) == q * q * csum,
            q * q * (cx * cx) == (xx * s0) * (xx * s0) - 2 * (xx * s0) * ex + ex * ex,
            q * q * (cy * cy) == (yy * s0) * (yy * s0) - 2 * (yy * s0) * ey + ey * ey,
            q * q * (cz * cz) == (zz * s0) * (zz * s0) - 2 * (zz * s0) * ez + ez * ez,
            (xx * s0) * (xx * s0) + (yy * s0) * (yy * s0) + (zz * s0) * (zz * s0) == 65536 * 65536
                * ssum,
            mag(2 * (xx * s0) * ex) <= 2 * 65536 * ((q + 2) * q),
            mag(2 * (yy * s0) * ey) <= 2 * 65536 * ((q + 2) * q),
            mag(2 * (zz * s0) * ez) <= 2 * 65536 * ((q + 2) * q),
            ex * ex < q * q && ey * ey < q * q && ez * ez < q * q,
    ;
    assert(q * q * csum >= 65536 * 65536 * (q * q) - 6 * 65536 * ((q + 2) * q)) by (nonlinear_arith)
        requires
            q * q * csum >= 65536 * 65536 * ssum - 6 * 65536 * ((q + 2) * q),
            ssum >= q * q,
    ;
    assert(q * q * csum <= 65536 * 65536 * (q * q + 5 * q) + 6 * 65536 * ((q + 2) * q) + 3 * (q
        * q)) by (nonlinear_arith)
        requires
            q * q * csum <= 65536 * 65536 * ssum + 6 * 65536 * ((q + 2) * q) + 3 * (q * q),
            ssum < q * q + 5 * q,
    ;
    // Divide the bounds by the square of the magnitude.
    assert(csum >= 65536 * 65536 - 6 * 65536 - 13) by (nonlinear_arith)
        requires
            q * q * csum >= 65536 * 65536 * (q * q) - 6 * 65536 * ((q + 2) * q),
            q >= 65536,
    ;
    assert(csum <= 65536 * 65536 + 11 * 65536 + 15) by (nonlinear_arith)
        requires
            q * q * csum <= 65536 * 65536 * (q * q + 5 * q) + 6 * 65536 * ((q + 2) * q) + 3 * (q
                * q),
            q >= 65536,
    ;
    // The squared magnitude of the normalized vector is the truncated sum.
    let nx = quot(cx * cx, s0);
    let ny = quot(cy * cy, s0);
    let nz = quot(cz * cz, s0);
    assert(0 <= cx * cx <= 65539 * 65539 && 0 <= cy * cy <= 65539 * 65539 && 0 <= cz * cz <= 65539
        * 65539) by (nonlinear_arith)
        requires
            mag(cx) <= 65539 && mag(cy) <= 65539 && mag(cz) <= 65539,
    ;
    crate::fixed::lemma_quot_floor(cx * cx, s0);
    crate::fixed::lemma_quot_floor(cy * cy, s0);
    crate::fixed::lemma_quot_floor(cz * cz, s0);
    assert(0 <= nx <= 65545 && 0 <= ny <= 65545 && 0 <= nz <= 65545) by (nonlinear_arith)
        requires
            65536 * nx <= cx * cx <= 65539 * 65539 && 0 <= cx * cx && 65536 * nx + 65536 > cx * cx,
            65536 * ny <= cy * cy <= 65539 * 65539 && 0 <= cy * cy && 65536 * ny + 65536 > cy * cy,
            65536 * nz <= cz * cz <= 65539 * 65539 && 0 <= cz * cz && 65536 * nz + 65536 > cz * cz,
    ;
    let n3 = sqr3(norm3(v));
    assert(n3 == nx + ny + nz);
    assert(65536 * n3 <= csum && csum < 65536 * n3 + 3 * 65536);
    assert(SCALE - 9 <= n3 <= SCALE + 11) by (nonlinear_arith)
        requires
            65536 * n3 <= csum < 65536 * n3 + 3 * 65536,
            65536 * 65536 - 6 * 65536 - 13 <= csum <= 65536 * 65536 + 11 * 65536 + 15,
    ;
}
} // verus!
