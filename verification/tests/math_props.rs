//! Matrix and normalization properties on concrete values.

use rust_3d_course::math::angle::Angle;
use rust_3d_course::math::matrix4x4::Matrix4x4;
use rust_3d_course::math::vec_3d::Vec3d;
use rust_3d_course::math::vec_4d::Vec4d;
use rust_3d_course::SCALE;

const S: i64 = SCALE;

#[test]
fn identity_is_neutral() {
    let m = Matrix4x4::translation(&Vec3d::new(5 * S, -3 * S, 7 * S))
        .mul(&Matrix4x4::scale(&Vec3d::new(2 * S, 3 * S, 4 * S)));
    let id = Matrix4x4::identity();
    assert_eq!(m.mul(&id), m);
    assert_eq!(id.mul(&m), m);
}

#[test]
fn quarter_turn_x_maps_basis() {
    let q = Angle::quarter_turn();
    let rx = Matrix4x4::rotation_x(&q);
    let bx = Vec4d::new(S, 0, 0, 0);
    let by = Vec4d::new(0, S, 0, 0);
    let bz = Vec4d::new(0, 0, S, 0);
    let r1 = rx.mul_vec4(&bx);
    assert_eq!((r1.x(), r1.y(), r1.z(), r1.w()), (S, 0, 0, 0));
    let r2 = rx.mul_vec4(&by);
    assert_eq!((r2.x(), r2.y(), r2.z(), r2.w()), (0, 0, S, 0));
    let r3 = rx.mul_vec4(&bz);
    assert_eq!((r3.x(), r3.y(), r3.z(), r3.w()), (0, -S, 0, 0));
}

#[test]
fn quarter_turn_y_maps_basis() {
    let q = Angle::quarter_turn();
    let ry = Matrix4x4::rotation_y(&q);
    let bx = Vec4d::new(S, 0, 0, 0);
    let by = Vec4d::new(0, S, 0, 0);
    let bz = Vec4d::new(0, 0, S, 0);
    let r1 = ry.mul_vec4(&bx);
    assert_eq!((r1.x(), r1.y(), r1.z(), r1.w()), (0, 0, -S, 0));
    let r2 = ry.mul_vec4(&by);
    assert_eq!((r2.x(), r2.y(), r2.z(), r2.w()), (0, S, 0, 0));
    let r3 = ry.mul_vec4(&bz);
    assert_eq!((r3.x(), r3.y(), r3.z(), r3.w()), (S, 0, 0, 0));
}

#[test]
fn quarter_turn_z_maps_basis() {
    let q = Angle::quarter_turn();
    let rz = Matrix4x4::rotation_z(&q);
    let bx = Vec4d::new(S, 0, 0, 0);
    let by = Vec4d::new(0, S, 0, 0);
    let bz = Vec4d::new(0, 0, S, 0);
    let r1 = rz.mul_vec4(&bx);
    assert_eq!((r1.x(), r1.y(), r1.z(), r1.w()), (0, S, 0, 0));
    let r2 = rz.mul_vec4(&by);
    assert_eq!((r2.x(), r2.y(), r2.z(), r2.w()), (-S, 0, 0, 0));
    let r3 = rz.mul_vec4(&bz);
    assert_eq!((r3.x(), r3.y(), r3.z(), r3.w()), (0, 0, S, 0));
}

#[test]
fn normalized_unit_magnitude_or_zero() {
    // A 3-4-5 vector normalizes to magnitude 1 on the grid.
    let v = Vec3d::new(3 * S, 4 * S, 0);
    assert_eq!(v.abs(), 5 * S);
    let n = v.normalized();
    assert!((n.abs() - S).abs() <= 2);
    // The zero vector, and any vector whose squared magnitude rounds to
    // zero, normalizes to the zero vector.
    let z = Vec3d::new(0, 0, 0).normalized();
    assert_eq!((z.x(), z.y(), z.z()), (0, 0, 0));
    let tiny = Vec3d::new(1, -1, 1).normalized();
    assert_eq!((tiny.x(), tiny.y(), tiny.z()), (0, 0, 0));
}

#[test]
fn projection_matrix_entries() {
    // tan of the half field-of-view 1.0, aspect 1.0, near 2, far 10.
    let p = Matrix4x4::projection(S, S, 2 * S, 10 * S);
    assert_eq!(p.m00, S);
    assert_eq!(p.m11, S);
    assert_eq!(p.m22, 10 * S * S / (8 * S));
    assert_eq!(p.m23, -(20 * S * S) / (8 * S));
    assert_eq!(p.m32, S);
    assert_eq!(p.m33, S);
}

#[test]
fn screen_space_matrix_entries() {
    let m = Matrix4x4::screen_space(1000, 750);
    assert_eq!(m.m00, -500 * S);
    assert_eq!(m.m03, 500 * S);
    assert_eq!(m.m11, -375 * S);
    assert_eq!(m.m13, 375 * S);
    assert_eq!(m.m22, S);
    assert_eq!(m.m33, S);
}

#[test]
fn view_inverts_rotation_translation() {
    // A camera standing at (0,0,-5) with the identity basis: the view
    // matrix must bring world (0,0,0) to camera-space (0,0,5).
    let mut t = Matrix4x4::identity();
    t.m03 = 0;
    t.m13 = 0;
    t.m23 = -5 * S;
    let v = Matrix4x4::view(&t);
    let p = v.mul_vec4(&Vec4d::new(0, 0, 0, S));
    assert_eq!((p.x(), p.y(), p.z(), p.w()), (0, 0, 5 * S, S));
}
