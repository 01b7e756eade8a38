//! The camera pipeline end to end: projection, clipping, shading,
//! depth-sorting, and its refusal of degenerate depths.

use rust_3d_course::camera::{MyCamera, ProjectError};
use rust_3d_course::color::Color;
use rust_3d_course::math::matrix4x4::Matrix4x4;
use rust_3d_course::math::vec_3d::Vec3d;
use rust_3d_course::math::vec_4d::Vec4d;
use rust_3d_course::object::{Cube, Mesh, ObjectNameTag};
use rust_3d_course::triangle::Triangle;
use rust_3d_course::SCALE;

const S: i64 = SCALE;

fn zsum(t: &Triangle) -> i128 {
    t.points()[0].z() as i128 + t.points()[1].z() as i128 + t.points()[2].z() as i128
}

#[test]
fn cube_mesh_has_twelve_centered_triangles() {
    let c = Cube::new(ObjectNameTag::new("Cube"), 5 * S / 2, Color::from_rgba(10, 20, 30, 255));
    assert_eq!(c.triangles().len(), 12);
    assert!(c.visible());
    assert_eq!(c.color(), Color::from_rgba(10, 20, 30, 255));
    // The unit corner (0,0,0) lands at -1.25 along each axis.
    let p = c.triangles()[0].points()[0];
    assert_eq!((p.x(), p.y(), p.z(), p.w()), (-81920, -81920, -81920, S));
    // The opposite corner (1,1,1) lands at +1.25 along each axis.
    let q = c.triangles()[2].points()[2];
    assert_eq!((q.x(), q.y(), q.z(), q.w()), (81920, 81920, 81920, S));
}

#[test]
fn camera_init_builds_six_planes() {
    let mut cam = MyCamera::new("Camera");
    cam.init(1000, 750, S, -10 * S, 500 * S);
    assert_eq!(cam.aspect, 1000 * S * S / (750 * S));
    assert_eq!(cam.clip_planes.len(), 6);
    let near = &cam.clip_planes[0];
    assert_eq!((near.normal.x, near.normal.y, near.normal.z), (0, 0, S));
    assert_eq!(near.point.z, -10 * S);
    let far = &cam.clip_planes[1];
    assert_eq!((far.normal.x, far.normal.y, far.normal.z), (0, 0, -S));
    assert_eq!(far.point.z, 500 * S);
}

#[test]
fn end_to_end_unit_cube() {
    // A unit cube at the origin, the camera at (0,0,-5) looking toward
    // +Z, fov 90°, near -10, far 500, viewport 1000×750.
    let cube = Cube::new(ObjectNameTag::new("Cube"), S, Color::from_rgba(200, 100, 50, 255));
    let mut cam = MyCamera::new("Camera");
    cam.init(1000, 750, S, -10 * S, 500 * S);
    cam.obj.position = Vec3d::new(0, 0, -5 * S);
    let shown = cam.project(&cube).unwrap();
    assert_eq!(shown.len(), 12);
    let sorted = cam.sorted().clone();
    assert_eq!(sorted.len(), 12);
    let mut prev = zsum(&sorted[0]);
    for t in sorted.iter() {
        let k = zsum(t);
        assert!(prev <= k, "keys must not decrease");
        prev = k;
        for p in t.points().iter() {
            // Screen coordinates stay within (or very near) the viewport.
            assert!(-50 * S <= p.x() && p.x() <= 1050 * S, "x = {}", p.x());
            assert!(-50 * S <= p.y() && p.y() <= 800 * S, "y = {}", p.y());
        }
    }
    cam.clear();
    assert_eq!(cam.buffsize(), 0);
}

#[test]
fn invisible_mesh_projects_nothing() {
    let mut cube = Cube::new(ObjectNameTag::new("Cube"), S, Color::from_rgba(1, 2, 3, 255));
    cube.visible = false;
    let mut cam = MyCamera::new("Camera");
    cam.init(1000, 750, S, -10 * S, 500 * S);
    let shown = cam.project(&cube).unwrap();
    assert_eq!(shown.len(), 0);
    assert_eq!(cam.buffsize(), 0);
}

#[test]
fn degenerate_depth_is_refused() {
    // With the projection matrix alone, a point whose depth cancels its
    // homogeneous component would be divided by zero: the frame is
    // refused and the buffer stays empty.
    let mut cube = Cube::new(ObjectNameTag::new("Cube"), S, Color::from_rgba(1, 2, 3, 255));
    cube.triangles = vec![Triangle::new(
        Color::from_rgba(1, 2, 3, 255),
        Vec4d::new(0, 0, -S, S),
        Vec4d::new(S, 0, -S, S),
        Vec4d::new(0, S, -S, S),
    )];
    let mut cam = MyCamera::new("Camera");
    cam.sp = Matrix4x4::projection(S, S, -10 * S, 500 * S);
    assert!(matches!(cam.project(&cube), Err(ProjectError::DegenerateDepth)));
    assert_eq!(cam.buffsize(), 0);
}

#[test]
fn shading_keeps_head_on_color_and_darkens_side_walls() {
    // One triangle facing the camera head on: the lighting term is 1,
    // the factor is exactly 1.0, and the color survives unchanged.
    let mut facing = Cube::new(ObjectNameTag::new("F"), S, Color::from_rgba(200, 100, 50, 255));
    facing.triangles = vec![Triangle::new(
        facing.color(),
        Vec4d::new(0, 0, 5 * S, S),
        Vec4d::new(S, 0, 5 * S, S),
        Vec4d::new(0, S, 5 * S, S),
    )];
    let mut cam = MyCamera::new("Camera");
    let shown = cam.project(&facing).unwrap();
    assert_eq!(shown.len(), 1);
    assert_eq!(shown[0].color(), Color::from_rgba(200, 100, 50, 255));
    // One triangle seen edge on: the lighting term is 0 and every channel
    // shrinks to the 0.7 ambient floor (truncated on the grid).
    let mut side = Cube::new(ObjectNameTag::new("E"), S, Color::from_rgba(200, 100, 50, 255));
    side.triangles = vec![Triangle::new(
        side.color(),
        Vec4d::new(0, 0, 5 * S, S),
        Vec4d::new(S, 0, 5 * S, S),
        Vec4d::new(S, 0, 6 * S, S),
    )];
    let mut cam2 = MyCamera::new("Camera2");
    let shown2 = cam2.project(&side).unwrap();
    assert_eq!(shown2.len(), 1);
    let f: i64 = 458752 / 10;
    let expect = |c: i64| -> u8 { (c * f / S) as u8 };
    assert_eq!(shown2[0].color(), Color::from_rgba(expect(200), expect(100), expect(50), 255));
}

#[test]
fn sort_is_stable_for_equal_keys() {
    // Two triangles with the same summed-depth key keep their insertion
    // order; a farther triangle inserted later still comes out last.
    let mk = |tagr: u8, z0: i64, z1: i64, z2: i64| -> Triangle {
        Triangle::new(
            Color::from_rgba(tagr, 0, 0, 255),
            Vec4d::new(0, 0, z0, S),
            Vec4d::new(S, 0, z1, S),
            Vec4d::new(0, S, z2, S),
        )
    };
    let mut cam = MyCamera::new("Camera");
    cam.triangles = vec![
        mk(1, 3 * S, 2 * S, 1 * S),  // key 6
        mk(2, 1 * S, 2 * S, 3 * S),  // key 6, same as the first
        mk(3, 0, S, 0),              // key 1, must move to the front
        mk(4, 4 * S, 4 * S, 4 * S),  // key 12, stays last
    ];
    let sorted = cam.sorted().clone();
    let reds: Vec<u8> = sorted.iter().map(|t| t.color().r).collect();
    assert_eq!(reds, vec![3, 1, 2, 4]);
}

#[test]
fn project_accumulates_until_cleared() {
    let cube = Cube::new(ObjectNameTag::new("Cube"), S, Color::from_rgba(9, 9, 9, 255));
    let mut cam = MyCamera::new("Camera");
    cam.init(1000, 750, S, -10 * S, 500 * S);
    cam.obj.position = Vec3d::new(0, 0, -5 * S);
    cam.project(&cube).unwrap();
    let second = cam.project(&cube).unwrap();
    assert_eq!(second.len(), 24);
    cam.clear();
    assert_eq!(cam.buffsize(), 0);
}
