//! Plane queries and triangle clipping.

use rust_3d_course::color::Color;
use rust_3d_course::math::plane::Plane;
use rust_3d_course::math::vec_3d::Vec3d;
use rust_3d_course::math::vec_4d::Vec4d;
use rust_3d_course::triangle::Triangle;
use rust_3d_course::SCALE;

const S: i64 = SCALE;

fn white() -> Color {
    Color::from_rgba(255, 255, 255, 255)
}

fn tri(p0: (i64, i64, i64), p1: (i64, i64, i64), p2: (i64, i64, i64)) -> Triangle {
    Triangle::new(
        white(),
        Vec4d::new(p0.0, p0.1, p0.2, S),
        Vec4d::new(p1.0, p1.1, p1.2, S),
        Vec4d::new(p2.0, p2.1, p2.2, S),
    )
}

fn area(t: &Triangle) -> f64 {
    let p = t.points();
    let ax = (p[1].x() - p[0].x()) as f64;
    let ay = (p[1].y() - p[0].y()) as f64;
    let az = (p[1].z() - p[0].z()) as f64;
    let bx = (p[2].x() - p[0].x()) as f64;
    let by = (p[2].y() - p[0].y()) as f64;
    let bz = (p[2].z() - p[0].z()) as f64;
    let cx = ay * bz - by * az;
    let cy = az * bx - bz * ax;
    let cz = ax * by - bx * ay;
    0.5 * (cx * cx + cy * cy + cz * cz).sqrt() / (S as f64) / (S as f64)
}

#[test]
fn plane_distance_sign() {
    let pl = Plane::new(Vec3d::new(S, 0, 0), Vec3d::new(0, 0, 0));
    assert_eq!(pl.distance(&Vec3d::new(3 * S, 0, 0)), 3 * S);
    assert_eq!(pl.distance(&Vec3d::new(-2 * S, 9 * S, 0)), -2 * S);
}

#[test]
fn plane_intersection_midpoint() {
    let pl = Plane::new(Vec3d::new(S, 0, 0), Vec3d::new(0, 0, 0));
    let (p, k) = pl.intersection(&Vec3d::new(S, 0, 0), &Vec3d::new(-S, 2 * S, 0));
    assert_eq!(k, S / 2);
    assert_eq!((p.x(), p.y(), p.z()), (0, S, 0));
}

#[test]
fn clip_fully_inside_returns_same_triangle() {
    let pl = Plane::new(Vec3d::new(S, 0, 0), Vec3d::new(0, 0, 0));
    let t = tri((S, 0, 0), (2 * S, S, 0), (S, 2 * S, 0));
    let out = pl.clip(&t);
    assert_eq!(out.len(), 1);
    for i in 0..3 {
        assert_eq!(out[0].points()[i].x(), t.points()[i].x());
        assert_eq!(out[0].points()[i].y(), t.points()[i].y());
        assert_eq!(out[0].points()[i].z(), t.points()[i].z());
        assert_eq!(out[0].points()[i].w(), t.points()[i].w());
    }
    assert_eq!(out[0].color(), t.color());
}

#[test]
fn clip_fully_outside_returns_nothing() {
    let pl = Plane::new(Vec3d::new(S, 0, 0), Vec3d::new(0, 0, 0));
    let t = tri((-S, 0, 0), (-2 * S, S, 0), (-S, 2 * S, 0));
    assert_eq!(pl.clip(&t).len(), 0);
}

#[test]
fn clip_one_inside_keeps_inside_area() {
    // Triangle (1,0) (-1,0) (-1,2) against the half-space x >= 0: only
    // the first vertex is inside; the kept piece has area 1/2.
    let pl = Plane::new(Vec3d::new(S, 0, 0), Vec3d::new(0, 0, 0));
    let t = tri((S, 0, 0), (-S, 0, 0), (-S, 2 * S, 0));
    let out = pl.clip(&t);
    assert_eq!(out.len(), 1);
    let total: f64 = out.iter().map(area).sum();
    assert!((total - 0.5).abs() < 0.01, "kept area {total}");
}

#[test]
fn clip_two_inside_keeps_inside_area() {
    // Triangle (-1,0) (1,0) (1,2) against x >= 0: two vertices inside;
    // the kept quad has area 3/2 and comes back as two triangles.
    let pl = Plane::new(Vec3d::new(S, 0, 0), Vec3d::new(0, 0, 0));
    let t = tri((-S, 0, 0), (S, 0, 0), (S, 2 * S, 0));
    let out = pl.clip(&t);
    assert_eq!(out.len(), 2);
    let total: f64 = out.iter().map(area).sum();
    assert!((total - 1.5).abs() < 0.01, "kept area {total}");
}

#[test]
fn triangle_normal_and_queries() {
    let t = tri((0, 0, 0), (S, 0, 0), (0, S, 0));
    let n = t.normal();
    assert_eq!((n.x(), n.y(), n.z()), (0, 0, S));
    assert!(t.is_point_inside(&Vec3d::new(S / 4, S / 4, 0)));
    assert!(!t.is_point_inside(&Vec3d::new(2 * S, 2 * S, 0)));
    assert_eq!(t.distance(&Vec3d::new(0, 0, 3 * S)), -3 * S);
    let c = t.position();
    assert_eq!((c.x(), c.y(), c.z()), (S / 3, S / 3, 0));
    let from_tri = Plane::from_triangle(&t);
    assert_eq!(from_tri.normal().z(), S);
    assert_eq!(from_tri.point().x(), 0);
}

#[test]
fn degenerate_triangle_has_zero_normal() {
    let t = tri((0, 0, 0), (S, S, S), (2 * S, 2 * S, 2 * S));
    let n = t.normal();
    assert_eq!((n.x(), n.y(), n.z()), (0, 0, 0));
}
