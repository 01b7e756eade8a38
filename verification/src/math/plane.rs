//! Oriented half-spaces and triangle clipping.

use crate::fixed::{div_fx, fx_div, fx_sub, sub_sat};
use crate::math::vec_3d::{add3, dot3, from4, norm3, point4, scale3, sub3, Vec3d};
use crate::triangle::{mk_tri, Triangle};
use vstd::prelude::*;

verus! {

/// An oriented half-space: the points `p` with
/// `dot(p - point, normal) >= 0` count as inside.
pub struct Plane {
    pub normal: Vec3d,
    pub point: Vec3d,
}

/// Signed distance of a point to the plane; nonnegative means inside.
pub open spec fn plane_dist(normal: Vec3d, point: Vec3d, p: Vec3d) -> int {
    sub_sat(dot3(p, normal), dot3(point, normal))
}

/// Interpolation fraction at which the segment from `start` to `end`
/// crosses the plane. When both endpoints project equally onto the normal
/// the segment is parallel to the plane and the fraction degenerates to
/// zero; callers only cross the plane with endpoints on opposite sides.
pub open spec fn isect_k(normal: Vec3d, point: Vec3d, start: Vec3d, end: Vec3d) -> int {
    let s_dot_n = dot3(start, normal);
    div_fx(sub_sat(s_dot_n, dot3(point, normal)), sub_sat(s_dot_n, dot3(end, normal)))
}

/// The crossing point: `start + (end - start)·k`.
pub open spec fn isect_point(normal: Vec3d, point: Vec3d, start: Vec3d, end: Vec3d) -> Vec3d {
    add3(start, scale3(sub3(end, start), isect_k(normal, point, start, end)))
}

/// Clipping a triangle against a half-space, by case analysis on which of
/// the three vertices are inside:
/// - all three inside: the triangle passes through unchanged;
/// - none inside: the triangle is discarded;
/// - one inside: one triangle from the inside vertex to the two edge
///   crossings;
/// - two inside: two triangles covering the inside quad.
/// Vertex order is preserved so the outputs keep the input's winding.
pub open spec fn clip_spec(normal: Vec3d, point: Vec3d, t: Triangle) -> Seq<Triangle> {
    let p0 = from4(t.points[0]);
    let p1 = from4(t.points[1]);
    let p2 = from4(t.points[2]);
    let b0 = plane_dist(normal, point, p0) >= 0;
    let b1 = plane_dist(normal, point, p1) >= 0;
    let b2 = plane_dist(normal, point, p2) >= 0;
    if b0 && b1 && b2 {
        seq![t]
    } else if !b0 && !b1 && !b2 {
        Seq::empty()
    } else if b0 && !b1 && !b2 {
        seq![
            mk_tri(
                t.color,
                point4(p0),
                point4(isect_point(normal, point, p0, p1)),
                point4(isect_point(normal, point, p0, p2)),
            ),
        ]
    } else if !b0 && b1 && !b2 {
        seq![
            mk_tri(
                t.color,
                point4(p1),
                point4(isect_point(normal, point, p1, p0)),
                point4(isect_point(normal, point, p1, p2)),
            ),
        ]
    } else if !b0 && !b1 && b2 {
        seq![
            mk_tri(
                t.color,
                point4(p2),
                point4(isect_point(normal, point, p2, p0)),
                point4(isect_point(normal, point, p2, p1)),
            ),
        ]
    } else if b0 && b1 && !b2 {
        seq![
            mk_tri(
                t.color,
                point4(p0),
                point4(isect_point(normal, point, p0, p2)),
                point4(p1),
            ),
            mk_tri(
                t.color,
                point4(isect_point(normal, point, p0, p2)),
                point4(isect_point(normal, point, p1, p2)),
                point4(p1),
            ),
        ]
    } else if b0 && !b1 && b2 {
        seq![
            mk_tri(
                t.color,
                point4(p0),
                point4(isect_point(normal, point, p0, p1)),
                point4(p2),
            ),
            mk_tri(
                t.color,
                point4(isect_point(normal, point, p0, p1)),
                point4(isect_point(normal, point, p2, p1)),
                point4(p2),
            ),
        ]
    } else {
        seq![
            mk_tri(
                t.color,
                point4(p1),
                point4(isect_point(normal, point, p1, p0)),
                point4(p2),
            ),
            mk_tri(
                t.color,
                point4(isect_point(normal, point, p1, p0)),
                point4(isect_point(normal, point, p2, p0)),
                point4(p2),
            ),
        ]
    }
}

impl Plane {
    /// The unit normal.
    pub fn normal(&self) -> (r: &Vec3d)
        ensures
            r == &self.normal,
    {
        &self.normal
    }

    /// A point of the plane.
    pub fn point(&self) -> (r: &Vec3d)
        ensures
            r == &self.point,
    {
        &self.point
    }

    /// Build a plane; the given normal is normalized.
    pub fn new(normal: Vec3d, point: Vec3d) -> (r: Plane)
        ensures
            r.normal == norm3(normal),
            r.point == point,
    {
        Plane { normal: normal.normalized(), point }
    }

    /// The plane spanned by a triangle, oriented by its normal.
    pub fn from_triangle(triangle: &Triangle) -> (r: Plane)
        ensures
            r.normal == triangle.normal,
            r.point == from4(triangle.points[0]),
    {
        Plane {
            normal: triangle.normal(),
            point: Vec3d::from_vec4d(&triangle.points()[0]),
        }
    }

    /// Signed distance of a point to the plane; nonnegative means inside.
    pub fn distance(&self, point: &Vec3d) -> (r: i64)
        ensures
            r == plane_dist(self.normal, self.point, *point),
    {
        fx_sub(point.dot(&self.normal), self.point.dot(&self.normal))
    }

    /// Where the segment from `start` to `end` crosses the plane, with the
    /// interpolation fraction. Callers only invoke this with the endpoints
    /// on opposite sides of the plane.
    pub fn intersection(&self, start: &Vec3d, end: &Vec3d) -> (r: (Vec3d, i64))
        ensures
            r.0 == isect_point(self.normal, self.point, *start, *end),
            r.1 == isect_k(self.normal, self.point, *start, *end),
    {
        let s_dot_n = start.dot(&self.normal);
        let k = fx_div(
            fx_sub(s_dot_n, self.point.dot(&self.normal)),
            fx_sub(s_dot_n, end.dot(&self.normal)),
        );
        let res = start.add(&end.sub(start).mul(k));
        (res, k)
    }

    /// Clip a triangle against the half-space: zero, one or two output
    /// triangles, as `clip_spec` lays out case by case.
    pub fn clip(&self, tri: &Triangle) -> (r: Vec<Triangle>)
        ensures
            r@ == clip_spec(self.normal, self.point, *tri),
    {
        let p0 = Vec3d::from_vec4d(&tri.points()[0]);
        let p1 = Vec3d::from_vec4d(&tri.points()[1]);
        let p2 = Vec3d::from_vec4d(&tri.points()[2]);
        let b0 = self.distance(&p0) >= 0;
        let b1 = self.distance(&p1) >= 0;
        let b2 = self.distance(&p2) >= 0;
        let mut res: Vec<Triangle> = Vec::new();
        if b0 && b1 && b2 {
            res.push(tri.clone());
        } else if !b0 && !b1 && !b2 {
        } else if b0 && !b1 && !b2 {
            let i1 = self.intersection(&p0, &p1);
            let i2 = self.intersection(&p0, &p2);
            res.push(Triangle::new(
                tri.color(),
                p0.make_point_4d(),
                i1.0.make_point_4d(),
                i2.0.make_point_4d(),
            ));
        } else if !b0 && b1 && !b2 {
            let i1 = self.intersection(&p1, &p0);
            let i2 = self.intersection(&p1, &p2);
            res.push(Triangle::new(
                tri.color(),
                p1.make_point_4d(),
                i1.0.make_point_4d(),
                i2.0.make_point_4d(),
            ));
        } else if !b0 && !b1 && b2 {
            let i1 = self.intersection(&p2, &p0);
            let i2 = self.intersection(&p2, &p1);
            res.push(Triangle::new(
                tri.color(),
                p2.make_point_4d(),
                i1.0.make_point_4d(),
                i2.0.make_point_4d(),
            ));
        } else if b0 && b1 && !b2 {
            let i1 = self.intersection(&p0, &p2);
            let i2 = self.intersection(&p1, &p2);
            res.push(Triangle::new(
                tri.color(),
                p0.make_point_4d(),
                i1.0.make_point_4d(),
                p1.make_point_4d(),
            ));
            res.push(Triangle::new(
                tri.color(),
                i1.0.make_point_4d(),
                i2.0.make_point_4d(),
                p1.make_point_4d(),
            ));
        } else if b0 && !b1 && b2 {
            let i1 = self.intersection(&p0, &p1);
            let i2 = self.intersection(&p2, &p1);
            res.push(Triangle::new(
                tri.color(),
                p0.make_point_4d(),
                i1.0.make_point_4d(),
                p2.make_point_4d(),
            ));
            res.push(Triangle::new(
                tri.color(),
                i1.0.make_point_4d(),
                i2.0.make_point_4d(),
                p2.make_point_4d(),
            ));
        } else {
            let i1 = self.intersection(&p1, &p0);
            let i2 = self.intersection(&p2, &p0);
            res.push(Triangle::new(
                tri.color(),
                p1.make_point_4d(),
                i1.0.make_point_4d(),
                p2.make_point_4d(),
            ));
            res.push(Triangle::new(
                tri.color(),
                i1.0.make_point_4d(),
                i2.0.make_point_4d(),
                p2.make_point_4d(),
            ));
        }
        assert(res@ =~= clip_spec(self.normal, self.point, *tri));
        res
    }
}


/// Clip idempotence at the extremes: a triangle wholly inside the
/// half-space passes through as exactly itself, and one wholly outside is
/// discarded entirely.
pub proof fn lemma_clip_idempotence(normal: Vec3d, point: Vec3d, t: Triangle)
    ensures
        plane_dist(normal, point, from4(t.points[0])) >= 0 && plane_dist(
            normal,
            point,
            from4(t.points[1]),
        ) >= 0 && plane_dist(normal, point, from4(t.points[2])) >= 0 ==> clip_spec(
            normal,
            point,
            t,
        ) == seq![t],
        plane_dist(normal, point, from4(t.points[0])) < 0 && plane_dist(
            normal,
            point,
            from4(t.points[1]),
        ) < 0 && plane_dist(normal, point, from4(t.points[2])) < 0 ==> clip_spec(normal, point, t)
            == Seq::<Triangle>::empty(),
{
}
} // verus!
