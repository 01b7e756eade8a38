//! Triangles of homogeneous points.

use crate::color::Color;
use crate::fixed::SCALE;
use crate::math::matrix4x4::{mat_mul_vec4, Matrix4x4};
use crate::math::vec_3d::{cross3, dot3, from4, norm3, sqr3, sub3, Vec3d};
use crate::math::vec_4d::{add4, sub4, Vec4d};
use vstd::prelude::*;

verus! {

/// A triangle: three homogeneous points, a color, and the outward normal
/// cached at construction.
#[derive(Clone, Copy, Debug)]
pub struct Triangle {
    pub color: Color,
    pub points: [Vec4d; 3],
    pub normal: Vec3d,
}

/// The unit normal derived from the winding of three points; zero for a
/// degenerate (zero-area) triangle.
pub open spec fn normal_of(p0: Vec4d, p1: Vec4d, p2: Vec4d) -> Vec3d {
    let v1 = from4(sub4(p1, p0));
    let v2 = from4(sub4(p2, p0));
    let c = cross3(v1, v2);
    if sqr3(c) > 0 {
        norm3(c)
    } else {
        Vec3d { x: 0, y: 0, z: 0 }
    }
}

/// A triangle as `Triangle::new` builds it: points kept, normal derived.
pub open spec fn mk_tri(color: Color, p0: Vec4d, p1: Vec4d, p2: Vec4d) -> Triangle {
    Triangle { color, points: [p0, p1, p2], normal: normal_of(p0, p1, p2) }
}

/// The triangle carried through a matrix: each point is multiplied and the
/// normal recomputed from the new winding.
pub open spec fn tri_mul(t: Triangle, m: Matrix4x4) -> Triangle {
    mk_tri(
        t.color,
        mat_mul_vec4(m, t.points[0]),
        mat_mul_vec4(m, t.points[1]),
        mat_mul_vec4(m, t.points[2]),
    )
}

/// Signed distance of a point to the triangle's plane, along the normal.
pub open spec fn tri_distance(t: Triangle, point: Vec3d) -> int {
    dot3(t.normal, sub3(from4(t.points[0]), point))
}

/// The centroid of the three points.
pub open spec fn tri_position(t: Triangle) -> Vec3d {
    from4(crate::math::vec_4d::div4(add4(add4(t.points[0], t.points[1]), t.points[2]), 3 * (
    SCALE as int)))
}

/// The point lies on the inner side of all three edges, or on the outer
/// side of all three: it falls within the triangle's face.
pub open spec fn tri_contains(t: Triangle, p: Vec3d) -> bool {
    let d1 = dot3(cross3(sub3(p, from4(t.points[0])), from4(sub4(t.points[1], t.points[0]))), t.normal);
    let d2 = dot3(cross3(sub3(p, from4(t.points[1])), from4(sub4(t.points[2], t.points[1]))), t.normal);
    let d3 = dot3(cross3(sub3(p, from4(t.points[2])), from4(sub4(t.points[0], t.points[2]))), t.normal);
    (d1 >= 0 && d2 >= 0 && d3 >= 0) || (d1 <= 0 && d2 <= 0 && d3 <= 0)
}

impl Triangle {
    /// The three points.
    pub fn points(&self) -> (r: &[Vec4d; 3])
        ensures
            r == &self.points,
    {
        &self.points
    }

    /// Build a triangle; the normal is derived from the points' winding.
    pub fn new(color: Color, p1: Vec4d, p2: Vec4d, p3: Vec4d) -> (r: Triangle)
        ensures
            r == mk_tri(color, p1, p2, p3),
    {
        let arr = [p1, p2, p3];
        let norm = Triangle::calculate_normal(&arr);
        Triangle { color, points: arr, normal: norm }
    }

    /// The unit normal of three points; zero when they are colinear.
    pub fn calculate_normal(points: &[Vec4d; 3]) -> (r: Vec3d)
        ensures
            r == normal_of(points[0], points[1], points[2]),
    {
        let v1 = Vec3d::from_vec4d(&points[1].sub(&points[0]));
        let v2 = Vec3d::from_vec4d(&points[2].sub(&points[0]));
        let cross = v1.cross(&v2);
        if cross.sqr_abs() > 0 {
            cross.normalized()
        } else {
            Vec3d { x: 0, y: 0, z: 0 }
        }
    }

    /// The cached normal.
    pub fn normal(&self) -> (r: Vec3d)
        ensures
            r == self.normal,
    {
        self.normal
    }

    /// Whether the point falls within the triangle's face.
    pub fn is_point_inside(&self, point: &Vec3d) -> (r: bool)
        ensures
            r == tri_contains(*self, *point),
    {
        let tri_normal = self.normal();
        let dot1 = point
            .sub(&Vec3d::from_vec4d(&self.points[0]))
            .cross(&Vec3d::from_vec4d(&self.points[1].sub(&self.points[0])))
            .dot(&tri_normal);
        let dot2 = point
            .sub(&Vec3d::from_vec4d(&self.points[1]))
            .cross(&Vec3d::from_vec4d(&self.points[2].sub(&self.points[1])))
            .dot(&tri_normal);
        let dot3 = point
            .sub(&Vec3d::from_vec4d(&self.points[2]))
            .cross(&Vec3d::from_vec4d(&self.points[0].sub(&self.points[2])))
            .dot(&tri_normal);
        (dot1 >= 0 && dot2 >= 0 && dot3 >= 0) || (dot1 <= 0 && dot2 <= 0 && dot3 <= 0)
    }

    /// Signed distance of a point to the triangle's plane.
    pub fn distance(&self, point: &Vec3d) -> (r: i64)
        ensures
            r == tri_distance(*self, *point),
    {
        self.normal().dot(&Vec3d::from_vec4d(&self.points[0]).sub(point))
    }

    /// The color.
    pub fn color(&self) -> (r: Color)
        ensures
            r == self.color,
    {
        self.color
    }

    /// Mutable access to the color: the one field open to change after
    /// construction.
    pub fn color_mut(&mut self) -> (r: &mut Color)
        ensures
            *r == old(self).color,
            final(self).points == old(self).points,
            final(self).normal == old(self).normal,
            final(self).color == *final(r),
    {
        &mut self.color
    }

    /// The centroid of the three points.
    pub fn position(&self) -> (r: Vec3d)
        ensures
            r == tri_position(*self),
    {
        Vec3d::from_vec4d(
            &self.points[0].add(&self.points[1]).add(&self.points[2]).div(3 * SCALE),
        )
    }

    /// The triangle carried through a matrix.
    pub fn mul(&self, rhs: &Matrix4x4) -> (r: Triangle)
        ensures
            r == tri_mul(*self, *rhs),
    {
        Triangle::new(
            self.color,
            rhs.mul_vec4(&self.points[0]),
            rhs.mul_vec4(&self.points[1]),
            rhs.mul_vec4(&self.points[2]),
        )
    }
}

} // verus!
