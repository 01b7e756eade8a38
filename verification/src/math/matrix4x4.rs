//! 4×4 matrices.
//!
//! Entry `mIJ` is row `I`, column `J`. Columns 0–2 of a transform matrix
//! carry the object's local left/up/forward axes and column 3 its
//! local-to-parent offset. Products accumulate scaled products with
//! saturating sums, in the same order as the executable code.

use crate::fixed::{add_sat, div_fx, fx_add, fx_div, fx_from_int, fx_mul, fx_neg, fx_sub, mul_fx, neg_sat, sat_i64, sub_sat, SCALE};
use crate::math::angle::Angle;
use crate::math::vec_3d::{dot3, sqr3, Vec3d};
use crate::math::vec_4d::Vec4d;
use vstd::prelude::*;

verus! {

/// A 4×4 fixed-point matrix.
#[derive(Clone, Copy, Debug, PartialEq, Eq, Structural)]
pub struct Matrix4x4 {
    pub m00: i64,
    pub m01: i64,
    pub m02: i64,
    pub m03: i64,
    pub m10: i64,
    pub m11: i64,
    pub m12: i64,
    pub m13: i64,
    pub m20: i64,
    pub m21: i64,
    pub m22: i64,
    pub m23: i64,
    pub m30: i64,
    pub m31: i64,
    pub m32: i64,
    pub m33: i64,
}

/// Four scaled products, summed left to right with saturation.
pub open spec fn dot4fx(a0: int, b0: int, a1: int, b1: int, a2: int, b2: int, a3: int, b3: int) -> int {
    add_sat(add_sat(add_sat(mul_fx(a0, b0), mul_fx(a1, b1)), mul_fx(a2, b2)), mul_fx(a3, b3))
}

/// Three scaled products, summed left to right with saturation.
pub open spec fn dot3fx(a0: int, b0: int, a1: int, b1: int, a2: int, b2: int) -> int {
    add_sat(add_sat(mul_fx(a0, b0), mul_fx(a1, b1)), mul_fx(a2, b2))
}

/// Row-by-column product of two matrices.
pub open spec fn mat_mul(a: Matrix4x4, b: Matrix4x4) -> Matrix4x4 {
    Matrix4x4 {
        m00: dot4fx(a.m00 as int, b.m00 as int, a.m01 as int, b.m10 as int, a.m02 as int, b.m20 as int, a.m03 as int, b.m30 as int) as i64,
        m01: dot4fx(a.m00 as int, b.m01 as int, a.m01 as int, b.m11 as int, a.m02 as int, b.m21 as int, a.m03 as int, b.m31 as int) as i64,
        m02: dot4fx(a.m00 as int, b.m02 as int, a.m01 as int, b.m12 as int, a.m02 as int, b.m22 as int, a.m03 as int, b.m32 as int) as i64,
        m03: dot4fx(a.m00 as int, b.m03 as int, a.m01 as int, b.m13 as int, a.m02 as int, b.m23 as int, a.m03 as int, b.m33 as int) as i64,
        m10: dot4fx(a.m10 as int, b.m00 as int, a.m11 as int, b.m10 as int, a.m12 as int, b.m20 as int, a.m13 as int, b.m30 as int) as i64,
        m11: dot4fx(a.m10 as int, b.m01 as int, a.m11 as int, b.m11 as int, a.m12 as int, b.m21 as int, a.m13 as int, b.m31 as int) as i64,
        m12: dot4fx(a.m10 as int, b.m02 as int, a.m11 as int, b.m12 as int, a.m12 as int, b.m22 as int, a.m13 as int, b.m32 as int) as i64,
        m13: dot4fx(a.m10 as int, b.m03 as int, a.m11 as int, b.m13 as int, a.m12 as int, b.m23 as int, a.m13 as int, b.m33 as int) as i64,
        m20: dot4fx(a.m20 as int, b.m00 as int, a.m21 as int, b.m10 as int, a.m22 as int, b.m20 as int, a.m23 as int, b.m30 as int) as i64,
        m21: dot4fx(a.m20 as int, b.m01 as int, a.m21 as int, b.m11 as int, a.m22 as int, b.m21 as int, a.m23 as int, b.m31 as int) as i64,
        m22: dot4fx(a.m20 as int, b.m02 as int, a.m21 as int, b.m12 as int, a.m22 as int, b.m22 as int, a.m23 as int, b.m32 as int) as i64,
        m23: dot4fx(a.m20 as int, b.m03 as int, a.m21 as int, b.m13 as int, a.m22 as int, b.m23 as int, a.m23 as int, b.m33 as int) as i64,
        m30: dot4fx(a.m30 as int, b.m00 as int, a.m31 as int, b.m10 as int, a.m32 as int, b.m20 as int, a.m33 as int, b.m30 as int) as i64,
        m31: dot4fx(a.m30 as int, b.m01 as int, a.m31 as int, b.m11 as int, a.m32 as int, b.m21 as int, a.m33 as int, b.m31 as int) as i64,
        m32: dot4fx(a.m30 as int, b.m02 as int, a.m31 as int, b.m12 as int, a.m32 as int, b.m22 as int, a.m33 as int, b.m32 as int) as i64,
        m33: dot4fx(a.m30 as int, b.m03 as int, a.m31 as int, b.m13 as int, a.m32 as int, b.m23 as int, a.m33 as int, b.m33 as int) as i64,
    }
}

/// Product of a matrix with a homogeneous point.
pub open spec fn mat_mul_vec4(a: Matrix4x4, v: Vec4d) -> Vec4d {
    Vec4d {
        x: dot4fx(a.m00 as int, v.x as int, a.m01 as int, v.y as int, a.m02 as int, v.z as int, a.m03 as int, v.w as int) as i64,
        y: dot4fx(a.m10 as int, v.x as int, a.m11 as int, v.y as int, a.m12 as int, v.z as int, a.m13 as int, v.w as int) as i64,
        z: dot4fx(a.m20 as int, v.x as int, a.m21 as int, v.y as int, a.m22 as int, v.z as int, a.m23 as int, v.w as int) as i64,
        w: dot4fx(a.m30 as int, v.x as int, a.m31 as int, v.y as int, a.m32 as int, v.z as int, a.m33 as int, v.w as int) as i64,
    }
}

/// Product of the upper-left 3×3 block with a spatial vector.
pub open spec fn mat_mul_vec3(a: Matrix4x4, v: Vec3d) -> Vec3d {
    Vec3d {
        x: dot3fx(a.m00 as int, v.x as int, a.m01 as int, v.y as int, a.m02 as int, v.z as int) as i64,
        y: dot3fx(a.m10 as int, v.x as int, a.m11 as int, v.y as int, a.m12 as int, v.z as int) as i64,
        z: dot3fx(a.m20 as int, v.x as int, a.m21 as int, v.y as int, a.m22 as int, v.z as int) as i64,
    }
}

/// The zero matrix.
pub open spec fn mat_zero() -> Matrix4x4 {
    Matrix4x4 {
        m00: 0,
        m01: 0,
        m02: 0,
        m03: 0,
        m10: 0,
        m11: 0,
        m12: 0,
        m13: 0,
        m20: 0,
        m21: 0,
        m22: 0,
        m23: 0,
        m30: 0,
        m31: 0,
        m32: 0,
        m33: 0,
    }
}

/// The identity matrix.
pub open spec fn mat_identity() -> Matrix4x4 {
    Matrix4x4 {
        m00: SCALE,
        m01: 0,
        m02: 0,
        m03: 0,
        m10: 0,
        m11: SCALE,
        m12: 0,
        m13: 0,
        m20: 0,
        m21: 0,
        m22: SCALE,
        m23: 0,
        m30: 0,
        m31: 0,
        m32: 0,
        m33: SCALE,
    }
}

/// A scale matrix with the given diagonal.
pub open spec fn mat_scale(v: Vec3d) -> Matrix4x4 {
    Matrix4x4 {
        m00: v.x,
        m01: 0,
        m02: 0,
        m03: 0,
        m10: 0,
        m11: v.y,
        m12: 0,
        m13: 0,
        m20: 0,
        m21: 0,
        m22: v.z,
        m23: 0,
        m30: 0,
        m31: 0,
        m32: 0,
        m33: SCALE,
    }
}

/// A translation by the given offset.
pub open spec fn mat_translation(v: Vec3d) -> Matrix4x4 {
    Matrix4x4 {
        m00: SCALE,
        m01: 0,
        m02: 0,
        m03: v.x,
        m10: 0,
        m11: SCALE,
        m12: 0,
        m13: v.y,
        m20: 0,
        m21: 0,
        m22: SCALE,
        m23: v.z,
        m30: 0,
        m31: 0,
        m32: 0,
        m33: SCALE,
    }
}

/// A rotation about the first axis.
pub open spec fn mat_rotation_x(a: Angle) -> Matrix4x4 {
    Matrix4x4 {
        m00: SCALE,
        m01: 0,
        m02: 0,
        m03: 0,
        m10: 0,
        m11: a.cos,
        m12: neg_sat(a.sin as int) as i64,
        m13: 0,
        m20: 0,
        m21: a.sin,
        m22: a.cos,
        m23: 0,
        m30: 0,
        m31: 0,
        m32: 0,
        m33: SCALE,
    }
}

/// A rotation about the second axis.
pub open spec fn mat_rotation_y(a: Angle) -> Matrix4x4 {
    Matrix4x4 {
        m00: a.cos,
        m01: 0,
        m02: a.sin,
        m03: 0,
        m10: 0,
        m11: SCALE,
        m12: 0,
        m13: 0,
        m20: neg_sat(a.sin as int) as i64,
        m21: 0,
        m22: a.cos,
        m23: 0,
        m30: 0,
        m31: 0,
        m32: 0,
        m33: SCALE,
    }
}

/// A rotation about the third axis.
pub open spec fn mat_rotation_z(a: Angle) -> Matrix4x4 {
    Matrix4x4 {
        m00: a.cos,
        m01: neg_sat(a.sin as int) as i64,
        m02: 0,
        m03: 0,
        m10: a.sin,
        m11: a.cos,
        m12: 0,
        m13: 0,
        m20: 0,
        m21: 0,
        m22: SCALE,
        m23: 0,
        m30: 0,
        m31: 0,
        m32: 0,
        m33: SCALE,
    }
}

/// The Rodrigues rotation about the direction of `v` by angle `a`.
pub open spec fn mat_rotation_around_vec(v: Vec3d, a: Angle) -> Matrix4x4 {
    let nv = crate::math::vec_3d::norm3(v);
    let nx = nv.x as int;
    let ny = nv.y as int;
    let nz = nv.z as int;
    let c = a.cos as int;
    let s = a.sin as int;
    let omc = sub_sat(SCALE as int, c);
    Matrix4x4 {
        m00: add_sat(c, mul_fx(mul_fx(omc, nx), nx)) as i64,
        m01: sub_sat(mul_fx(mul_fx(omc, nx), ny), mul_fx(s, nz)) as i64,
        m02: add_sat(mul_fx(mul_fx(omc, nx), nz), mul_fx(s, ny)) as i64,
        m03: 0,
        m10: add_sat(mul_fx(mul_fx(omc, nx), ny), mul_fx(s, nz)) as i64,
        m11: add_sat(c, mul_fx(mul_fx(omc, ny), ny)) as i64,
        m12: sub_sat(mul_fx(mul_fx(omc, ny), nz), mul_fx(s, nx)) as i64,
        m13: 0,
        m20: sub_sat(mul_fx(mul_fx(omc, nz), nx), mul_fx(s, ny)) as i64,
        m21: add_sat(mul_fx(mul_fx(omc, nz), ny), mul_fx(s, nx)) as i64,
        m22: add_sat(c, mul_fx(mul_fx(omc, nz), nz)) as i64,
        m23: 0,
        m30: 0,
        m31: 0,
        m32: 0,
        m33: SCALE,
    }
}

/// The perspective projection matrix. The perspective divide is deferred:
/// the third row stores depth in the homogeneous component.
pub open spec fn mat_projection(tan_half_fov: i64, aspect: i64, znear: i64, zfar: i64) -> Matrix4x4 {
    Matrix4x4 {
        m00: div_fx(SCALE as int, mul_fx(tan_half_fov as int, aspect as int)) as i64,
        m01: 0,
        m02: 0,
        m03: 0,
        m10: 0,
        m11: div_fx(SCALE as int, tan_half_fov as int) as i64,
        m12: 0,
        m13: 0,
        m20: 0,
        m21: 0,
        m22: div_fx(zfar as int, sub_sat(zfar as int, znear as int)) as i64,
        m23: div_fx(neg_sat(mul_fx(zfar as int, znear as int)), sub_sat(zfar as int, znear as int)) as i64,
        m30: 0,
        m31: 0,
        m32: SCALE,
        m33: SCALE,
    }
}

/// Map normalized device coordinates to pixel coordinates: both axes flip
/// and the origin moves to the viewport center.
pub open spec fn mat_screen_space(width: int, height: int) -> Matrix4x4 {
    Matrix4x4 {
        m00: neg_sat(mul_fx(sat_i64(width * (SCALE as int)), 32768)) as i64,
        m01: 0,
        m02: 0,
        m03: mul_fx(sat_i64(width * (SCALE as int)), 32768) as i64,
        m10: 0,
        m11: neg_sat(mul_fx(sat_i64(height * (SCALE as int)), 32768)) as i64,
        m12: 0,
        m13: mul_fx(sat_i64(height * (SCALE as int)), 32768) as i64,
        m20: 0,
        m21: 0,
        m22: SCALE,
        m23: 0,
        m30: 0,
        m31: 0,
        m32: 0,
        m33: SCALE,
    }
}

/// The inverse of an orthonormal-basis transform: each basis column is
/// divided by its own squared magnitude and the offset is projected onto
/// each axis with a negated dot product. This is an exact inverse only when
/// the three basis columns are mutually orthogonal (rotation-only
/// transforms); a scaled or skewed basis is not correctly inverted, which
/// mirrors the renderer's documented limitation.
pub open spec fn mat_view(t: Matrix4x4) -> Matrix4x4 {
    let left = col_x(t);
    let up = col_y(t);
    let look_at = col_z(t);
    let eye = col_w(t);
    let lsq = sqr3(left);
    let usq = sqr3(up);
    let ksq = sqr3(look_at);
    Matrix4x4 {
        m00: div_fx(left.x as int, lsq) as i64,
        m01: div_fx(left.y as int, lsq) as i64,
        m02: div_fx(left.z as int, lsq) as i64,
        m03: div_fx(neg_sat(dot3(eye, left)), lsq) as i64,
        m10: div_fx(up.x as int, usq) as i64,
        m11: div_fx(up.y as int, usq) as i64,
        m12: div_fx(up.z as int, usq) as i64,
        m13: div_fx(neg_sat(dot3(eye, up)), usq) as i64,
        m20: div_fx(look_at.x as int, ksq) as i64,
        m21: div_fx(look_at.y as int, ksq) as i64,
        m22: div_fx(look_at.z as int, ksq) as i64,
        m23: div_fx(neg_sat(dot3(eye, look_at)), ksq) as i64,
        m30: 0,
        m31: 0,
        m32: 0,
        m33: SCALE,
    }
}

/// Column 0 of the matrix: the left part of a transform.
pub open spec fn col_x(t: Matrix4x4) -> Vec3d {
    Vec3d { x: t.m00, y: t.m10, z: t.m20 }
}

/// Column 1 of the matrix: the up part of a transform.
pub open spec fn col_y(t: Matrix4x4) -> Vec3d {
    Vec3d { x: t.m01, y: t.m11, z: t.m21 }
}

/// Column 2 of the matrix: the forward part of a transform.
pub open spec fn col_z(t: Matrix4x4) -> Vec3d {
    Vec3d { x: t.m02, y: t.m12, z: t.m22 }
}

/// Column 3 of the matrix: the offset part of a transform.
pub open spec fn col_w(t: Matrix4x4) -> Vec3d {
    Vec3d { x: t.m03, y: t.m13, z: t.m23 }
}

/// Four scaled products accumulated left to right.
fn row_dot4(a0: i64, b0: i64, a1: i64, b1: i64, a2: i64, b2: i64, a3: i64, b3: i64) -> (r: i64)
    ensures
        r == dot4fx(a0 as int, b0 as int, a1 as int, b1 as int, a2 as int, b2 as int, a3 as int, b3 as int),
{
    fx_add(fx_add(fx_add(fx_mul(a0, b0), fx_mul(a1, b1)), fx_mul(a2, b2)), fx_mul(a3, b3))
}

/// Three scaled products accumulated left to right.
fn row_dot3(a0: i64, b0: i64, a1: i64, b1: i64, a2: i64, b2: i64) -> (r: i64)
    ensures
        r == dot3fx(a0 as int, b0 as int, a1 as int, b1 as int, a2 as int, b2 as int),
{
    fx_add(fx_add(fx_mul(a0, b0), fx_mul(a1, b1)), fx_mul(a2, b2))
}

impl Matrix4x4 {
    /// Column 0: the left part of the transform.
    pub fn x(&self) -> (r: Vec3d)
        ensures
            r == col_x(*self),
    {
        Vec3d { x: self.m00, y: self.m10, z: self.m20 }
    }

    /// Column 1: the up part of the transform.
    pub fn y(&self) -> (r: Vec3d)
        ensures
            r == col_y(*self),
    {
        Vec3d { x: self.m01, y: self.m11, z: self.m21 }
    }

    /// Column 2: the forward part of the transform.
    pub fn z(&self) -> (r: Vec3d)
        ensures
            r == col_z(*self),
    {
        Vec3d { x: self.m02, y: self.m12, z: self.m22 }
    }

    /// Column 3: the offset part of the transform.
    pub fn w(&self) -> (r: Vec3d)
        ensures
            r == col_w(*self),
    {
        Vec3d { x: self.m03, y: self.m13, z: self.m23 }
    }

    /// The zero matrix.
    pub fn zero() -> (r: Matrix4x4)
        ensures
            r == mat_zero(),
    {
        Matrix4x4 {
            m00: 0,
            m01: 0,
            m02: 0,
            m03: 0,
            m10: 0,
            m11: 0,
            m12: 0,
            m13: 0,
            m20: 0,
            m21: 0,
            m22: 0,
            m23: 0,
            m30: 0,
            m31: 0,
            m32: 0,
            m33: 0,
        }
    }

    /// The identity matrix.
    pub fn identity() -> (r: Matrix4x4)
        ensures
            r == mat_identity(),
    {
        Matrix4x4 {
            m00: SCALE,
            m01: 0,
            m02: 0,
            m03: 0,
            m10: 0,
            m11: SCALE,
            m12: 0,
            m13: 0,
            m20: 0,
            m21: 0,
            m22: SCALE,
            m23: 0,
            m30: 0,
            m31: 0,
            m32: 0,
            m33: SCALE,
        }
    }

    /// A scale matrix with the given diagonal.
    pub fn scale(vec: &Vec3d) -> (r: Matrix4x4)
        ensures
            r == mat_scale(*vec),
    {
        Matrix4x4 {
            m00: vec.x,
            m01: 0,
            m02: 0,
            m03: 0,
            m10: 0,
            m11: vec.y,
            m12: 0,
            m13: 0,
            m20: 0,
            m21: 0,
            m22: vec.z,
            m23: 0,
            m30: 0,
            m31: 0,
            m32: 0,
            m33: SCALE,
        }
    }

    /// A translation by the given offset.
    pub fn translation(vec: &Vec3d) -> (r: Matrix4x4)
        ensures
            r == mat_translation(*vec),
    {
        Matrix4x4 {
            m00: SCALE,
            m01: 0,
            m02: 0,
            m03: vec.x,
            m10: 0,
            m11: SCALE,
            m12: 0,
            m13: vec.y,
            m20: 0,
            m21: 0,
            m22: SCALE,
            m23: vec.z,
            m30: 0,
            m31: 0,
            m32: 0,
            m33: SCALE,
        }
    }

    /// A rotation about the first axis.
    pub fn rotation_x(rx: &Angle) -> (r: Matrix4x4)
        ensures
            r == mat_rotation_x(*rx),
    {
        Matrix4x4 {
            m00: SCALE,
            m01: 0,
            m02: 0,
            m03: 0,
            m10: 0,
            m11: rx.cos,
            m12: fx_neg(rx.sin),
            m13: 0,
            m20: 0,
            m21: rx.sin,
            m22: rx.cos,
            m23: 0,
            m30: 0,
            m31: 0,
            m32: 0,
            m33: SCALE,
        }
    }

    /// A rotation about the second axis.
    pub fn rotation_y(ry: &Angle) -> (r: Matrix4x4)
        ensures
            r == mat_rotation_y(*ry),
    {
        Matrix4x4 {
            m00: ry.cos,
            m01: 0,
            m02: ry.sin,
            m03: 0,
            m10: 0,
            m11: SCALE,
            m12: 0,
            m13: 0,
            m20: fx_neg(ry.sin),
            m21: 0,
            m22: ry.cos,
            m23: 0,
            m30: 0,
            m31: 0,
            m32: 0,
            m33: SCALE,
        }
    }

    /// A rotation about the third axis.
    pub fn rotation_z(rz: &Angle) -> (r: Matrix4x4)
        ensures
            r == mat_rotation_z(*rz),
    {
        Matrix4x4 {
            m00: rz.cos,
            m01: fx_neg(rz.sin),
            m02: 0,
            m03: 0,
            m10: rz.sin,
            m11: rz.cos,
            m12: 0,
            m13: 0,
            m20: 0,
            m21: 0,
            m22: SCALE,
            m23: 0,
            m30: 0,
            m31: 0,
            m32: 0,
            m33: SCALE,
        }
    }

    /// Intrinsic rotations about the three axes, composed in the fixed
    /// order X, then Y, then Z. The order matters: the product is not
    /// commutative.
    pub fn rotation(rx: &Angle, ry: &Angle, rz: &Angle) -> (r: Matrix4x4)
        ensures
            r == mat_mul(mat_mul(mat_rotation_x(*rx), mat_rotation_y(*ry)), mat_rotation_z(*rz)),
    {
        Matrix4x4::rotation_x(rx).mul(&Matrix4x4::rotation_y(ry)).mul(&Matrix4x4::rotation_z(rz))
    }

    /// The Rodrigues rotation about the direction of `v` by angle `a`.
    pub fn rotation_around_vec(v: &Vec3d, a: &Angle) -> (r: Matrix4x4)
        ensures
            r == mat_rotation_around_vec(*v, *a),
    {
        let nv = v.normalized();
        let c = a.cos;
        let s = a.sin;
        let omc = fx_sub(SCALE, c);
        Matrix4x4 {
            m00: fx_add(c, fx_mul(fx_mul(omc, nv.x), nv.x)),
            m01: fx_sub(fx_mul(fx_mul(omc, nv.x), nv.y), fx_mul(s, nv.z)),
            m02: fx_add(fx_mul(fx_mul(omc, nv.x), nv.z), fx_mul(s, nv.y)),
            m03: 0,
            m10: fx_add(fx_mul(fx_mul(omc, nv.x), nv.y), fx_mul(s, nv.z)),
            m11: fx_add(c, fx_mul(fx_mul(omc, nv.y), nv.y)),
            m12: fx_sub(fx_mul(fx_mul(omc, nv.y), nv.z), fx_mul(s, nv.x)),
            m13: 0,
            m20: fx_sub(fx_mul(fx_mul(omc, nv.z), nv.x), fx_mul(s, nv.y)),
            m21: fx_add(fx_mul(fx_mul(omc, nv.z), nv.y), fx_mul(s, nv.x)),
            m22: fx_add(c, fx_mul(fx_mul(omc, nv.z), nv.z)),
            m23: 0,
            m30: 0,
            m31: 0,
            m32: 0,
            m33: SCALE,
        }
    }

    /// The perspective projection matrix for the given tangent of the
    /// half field-of-view, aspect ratio and depth range.
    pub fn projection(tan_half_fov: i64, aspect: i64, znear: i64, zfar: i64) -> (r: Matrix4x4)
        ensures
            r == mat_projection(tan_half_fov, aspect, znear, zfar),
    {
        let depth = fx_sub(zfar, znear);
        Matrix4x4 {
            m00: fx_div(SCALE, fx_mul(tan_half_fov, aspect)),
            m01: 0,
            m02: 0,
            m03: 0,
            m10: 0,
            m11: fx_div(SCALE, tan_half_fov),
            m12: 0,
            m13: 0,
            m20: 0,
            m21: 0,
            m22: fx_div(zfar, depth),
            m23: fx_div(fx_neg(fx_mul(zfar, znear)), depth),
            m30: 0,
            m31: 0,
            m32: SCALE,
            m33: SCALE,
        }
    }

    /// The screen-space matrix for a viewport measured in pixels.
    pub fn screen_space(width: i64, height: i64) -> (r: Matrix4x4)
        ensures
            r == mat_screen_space(width as int, height as int),
    {
        let half_w = fx_mul(fx_from_int(width), 32768);
        let half_h = fx_mul(fx_from_int(height), 32768);
        Matrix4x4 {
            m00: fx_neg(half_w),
            m01: 0,
            m02: 0,
            m03: half_w,
            m10: 0,
            m11: fx_neg(half_h),
            m12: 0,
            m13: half_h,
            m20: 0,
            m21: 0,
            m22: SCALE,
            m23: 0,
            m30: 0,
            m31: 0,
            m32: 0,
            m33: SCALE,
        }
    }

    /// The camera-space inverse of a transform with an orthonormal basis.
    /// See `mat_view` for the documented limitation on scaled bases.
    pub fn view(transform_matrix: &Matrix4x4) -> (r: Matrix4x4)
        ensures
            r == mat_view(*transform_matrix),
    {
        let left = transform_matrix.x();
        let up = transform_matrix.y();
        let look_at = transform_matrix.z();
        let eye = transform_matrix.w();
        let left_sqr_abs = left.sqr_abs();
        let up_sqr_abs = up.sqr_abs();
        let look_at_sqr_abs = look_at.sqr_abs();
        Matrix4x4 {
            m00: fx_div(left.x, left_sqr_abs),
            m01: fx_div(left.y, left_sqr_abs),
            m02: fx_div(left.z, left_sqr_abs),
            m03: fx_div(fx_neg(eye.dot(&left)), left_sqr_abs),
            m10: fx_div(up.x, up_sqr_abs),
            m11: fx_div(up.y, up_sqr_abs),
            m12: fx_div(up.z, up_sqr_abs),
            m13: fx_div(fx_neg(eye.dot(&up)), up_sqr_abs),
            m20: fx_div(look_at.x, look_at_sqr_abs),
            m21: fx_div(look_at.y, look_at_sqr_abs),
            m22: fx_div(look_at.z, look_at_sqr_abs),
            m23: fx_div(fx_neg(eye.dot(&look_at)), look_at_sqr_abs),
            m30: 0,
            m31: 0,
            m32: 0,
            m33: SCALE,
        }
    }

    /// Row-by-column matrix product.
    pub fn mul(&self, rhs: &Matrix4x4) -> (r: Matrix4x4)
        ensures
            r == mat_mul(*self, *rhs),
    {
        Matrix4x4 {
            m00: row_dot4(self.m00, rhs.m00, self.m01, rhs.m10, self.m02, rhs.m20, self.m03, rhs.m30),
            m01: row_dot4(self.m00, rhs.m01, self.m01, rhs.m11, self.m02, rhs.m21, self.m03, rhs.m31),
            m02: row_dot4(self.m00, rhs.m02, self.m01, rhs.m12, self.m02, rhs.m22, self.m03, rhs.m32),
            m03: row_dot4(self.m00, rhs.m03, self.m01, rhs.m13, self.m02, rhs.m23, self.m03, rhs.m33),
            m10: row_dot4(self.m10, rhs.m00, self.m11, rhs.m10, self.m12, rhs.m20, self.m13, rhs.m30),
            m11: row_dot4(self.m10, rhs.m01, self.m11, rhs.m11, self.m12, rhs.m21, self.m13, rhs.m31),
            m12: row_dot4(self.m10, rhs.m02, self.m11, rhs.m12, self.m12, rhs.m22, self.m13, rhs.m32),
            m13: row_dot4(self.m10, rhs.m03, self.m11, rhs.m13, self.m12, rhs.m23, self.m13, rhs.m33),
            m20: row_dot4(self.m20, rhs.m00, self.m21, rhs.m10, self.m22, rhs.m20, self.m23, rhs.m30),
            m21: row_dot4(self.m20, rhs.m01, self.m21, rhs.m11, self.m22, rhs.m21, self.m23, rhs.m31),
            m22: row_dot4(self.m20, rhs.m02, self.m21, rhs.m12, self.m22, rhs.m22, self.m23, rhs.m32),
            m23: row_dot4(self.m20, rhs.m03, self.m21, rhs.m13, self.m22, rhs.m23, self.m23, rhs.m33),
            m30: row_dot4(self.m30, rhs.m00, self.m31, rhs.m10, self.m32, rhs.m20, self.m33, rhs.m30),
            m31: row_dot4(self.m30, rhs.m01, self.m31, rhs.m11, self.m32, rhs.m21, self.m33, rhs.m31),
            m32: row_dot4(self.m30, rhs.m02, self.m31, rhs.m12, self.m32, rhs.m22, self.m33, rhs.m32),
            m33: row_dot4(self.m30, rhs.m03, self.m31, rhs.m13, self.m32, rhs.m23, self.m33, rhs.m33),
        }
    }

    /// Product with a homogeneous point.
    pub fn mul_vec4(&self, v: &Vec4d) -> (r: Vec4d)
        ensures
            r == mat_mul_vec4(*self, *v),
    {
        Vec4d {
            x: row_dot4(self.m00, v.x, self.m01, v.y, self.m02, v.z, self.m03, v.w),
            y: row_dot4(self.m10, v.x, self.m11, v.y, self.m12, v.z, self.m13, v.w),
            z: row_dot4(self.m20, v.x, self.m21, v.y, self.m22, v.z, self.m23, v.w),
            w: row_dot4(self.m30, v.x, self.m31, v.y, self.m32, v.z, self.m33, v.w),
        }
    }

    /// Product of the upper-left 3×3 block with a spatial vector.
    pub fn mul_vec3(&self, v: &Vec3d) -> (r: Vec3d)
        ensures
            r == mat_mul_vec3(*self, *v),
    {
        Vec3d {
            x: row_dot3(self.m00, v.x, self.m01, v.y, self.m02, v.z),
            y: row_dot3(self.m10, v.x, self.m11, v.y, self.m12, v.z),
            z: row_dot3(self.m20, v.x, self.m21, v.y, self.m22, v.z),
        }
    }
}

/// Multiplying by the identity on either side returns the matrix
/// unchanged: every entry is one scaled product `m·1` (exact on the
/// fixed-point grid) summed with zeros.
pub proof fn lemma_mul_identity(m: Matrix4x4)
    ensures
        mat_mul(m, mat_identity()) == m,
        mat_mul(mat_identity(), m) == m,
{
    crate::fixed::lemma_quot_scale(m.m00 as int, SCALE as int);
    crate::fixed::lemma_quot_scale(m.m01 as int, SCALE as int);
    crate::fixed::lemma_quot_scale(m.m02 as int, SCALE as int);
    crate::fixed::lemma_quot_scale(m.m03 as int, SCALE as int);
    crate::fixed::lemma_quot_scale(m.m10 as int, SCALE as int);
    crate::fixed::lemma_quot_scale(m.m11 as int, SCALE as int);
    crate::fixed::lemma_quot_scale(m.m12 as int, SCALE as int);
    crate::fixed::lemma_quot_scale(m.m13 as int, SCALE as int);
    crate::fixed::lemma_quot_scale(m.m20 as int, SCALE as int);
    crate::fixed::lemma_quot_scale(m.m21 as int, SCALE as int);
    crate::fixed::lemma_quot_scale(m.m22 as int, SCALE as int);
    crate::fixed::lemma_quot_scale(m.m23 as int, SCALE as int);
    crate::fixed::lemma_quot_scale(m.m30 as int, SCALE as int);
    crate::fixed::lemma_quot_scale(m.m31 as int, SCALE as int);
    crate::fixed::lemma_quot_scale(m.m32 as int, SCALE as int);
    crate::fixed::lemma_quot_scale(m.m33 as int, SCALE as int);
    assert forall|a: int| true implies #[trigger] (a * (SCALE as int)) == (SCALE as int) * a
        && a * 0 == 0 && 0 * a == 0 by {
        assert(a * (SCALE as int) == (SCALE as int) * a) by (nonlinear_arith);
        assert(a * 0 == 0) by (nonlinear_arith);
        assert(0 * a == 0) by (nonlinear_arith);
    }
}

/// A quarter turn about each axis carries the basis vectors exactly as a
/// right-handed rotation predicts: about the first axis the second basis
/// vector goes to the third and the third to the negated second, and
/// correspondingly for the other two axes; the rotation axis itself is
/// fixed.
pub proof fn lemma_quarter_turn_basis()
    ensures
        ({
            let q = Angle { rad: crate::math::angle::QUARTER_TURN_RAD, cos: 0, sin: SCALE };
            let bx = Vec4d { x: SCALE, y: 0, z: 0, w: 0 };
            let by = Vec4d { x: 0, y: SCALE, z: 0, w: 0 };
            let bz = Vec4d { x: 0, y: 0, z: SCALE, w: 0 };
            let nx = Vec4d { x: (-SCALE) as i64, y: 0, z: 0, w: 0 };
            let ny = Vec4d { x: 0, y: (-SCALE) as i64, z: 0, w: 0 };
            let nz = Vec4d { x: 0, y: 0, z: (-SCALE) as i64, w: 0 };
            &&& mat_mul_vec4(mat_rotation_x(q), bx) == bx
            &&& mat_mul_vec4(mat_rotation_x(q), by) == bz
            &&& mat_mul_vec4(mat_rotation_x(q), bz) == ny
            &&& mat_mul_vec4(mat_rotation_y(q), bx) == nz
            &&& mat_mul_vec4(mat_rotation_y(q), by) == by
            &&& mat_mul_vec4(mat_rotation_y(q), bz) == bx
            &&& mat_mul_vec4(mat_rotation_z(q), bx) == by
            &&& mat_mul_vec4(mat_rotation_z(q), by) == nx
            &&& mat_mul_vec4(mat_rotation_z(q), bz) == bz
        }),
{
    crate::fixed::lemma_quot_scale(SCALE as int, SCALE as int);
    crate::fixed::lemma_quot_scale(-(SCALE as int), SCALE as int);
    assert((SCALE as int) * (SCALE as int) == 65536 * (SCALE as int)
        && (-(SCALE as int)) * (SCALE as int) == (-65536) * (SCALE as int)) by (nonlinear_arith);
    assert forall|a: int| true implies #[trigger] (a * 0) == 0 && 0 * a == 0 by {
        assert(a * 0 == 0) by (nonlinear_arith);
        assert(0 * a == 0) by (nonlinear_arith);
    }
}

} // verus!
