//! Component arithmetic of 3-component vectors, on the fixed-point grid
//! where 1.0 is `SCALE` units.

use rust_3d_course::math::vec_3d::Vec3d;
use rust_3d_course::SCALE;

const S: i64 = SCALE;

fn near(a: i64, b: i64) -> bool {
    (a - b).abs() <= 2
}

#[test]
fn vec_3d_copy() {
    let a = Vec3d::new(S, 2 * S, 3 * S);
    let _b = Vec3d::new(3 * S, 4 * S, 5 * S);
    let c = a.clone();
    assert!(near(c.x(), S) && near(c.y(), 2 * S) && near(c.z(), 3 * S));
}

#[test]
fn vec_3d_assign() {
    let _a = Vec3d::new(S, 2 * S, 3 * S);
    let b = Vec3d::new(3 * S, 4 * S, 5 * S);
    let c = b;
    assert!(near(c.x(), 3 * S) && near(c.y(), 4 * S) && near(c.z(), 5 * S));
}

#[test]
fn vec_3d_neg() {
    let a = Vec3d::new(S, 2 * S, 3 * S);
    let _b = Vec3d::new(3 * S, 4 * S, 5 * S);
    let neg = a.neg();
    assert!(near(neg.x(), -S) && near(neg.y(), -2 * S) && near(neg.z(), -3 * S));
}

#[test]
fn vec_3d_plus_minus() {
    let a = Vec3d::new(S, 2 * S, 3 * S);
    let b = Vec3d::new(3 * S, 4 * S, 5 * S);
    let summ = a.add(&b);
    let diff = a.sub(&b);
    assert!(near(summ.x(), 4 * S) && near(summ.y(), 6 * S) && near(summ.z(), 8 * S));
    assert!(near(diff.x(), -2 * S) && near(diff.y(), -2 * S) && near(diff.z(), -2 * S));
}

#[test]
fn vec_3d_eq() {
    let a = Vec3d::new(S, 2 * S, 3 * S);
    let b = Vec3d::new(3 * S, 4 * S, 5 * S);
    let c = b.clone();
    assert!(c != a && c == b);
}

#[test]
fn vec_3d_scale() {
    let a = Vec3d::new(S, 2 * S, 3 * S);
    let _b = Vec3d::new(3 * S, 4 * S, 5 * S);
    let scale1 = a.mul(2 * S);
    assert!(near(scale1.x(), 2 * S) && near(scale1.y(), 4 * S) && near(scale1.z(), 6 * S));
    let scale2 = a.div(2 * S);
    assert!(near(scale2.x(), S / 2) && near(scale2.y(), S) && near(scale2.z(), 3 * S / 2));
}

#[test]
fn dot() {
    let a = Vec3d::new(S, 2 * S, 3 * S);
    let b = Vec3d::new(3 * S, 4 * S, 5 * S);
    assert!(near(a.dot(&b), 26 * S));
}

#[test]
fn cross() {
    let a = Vec3d::new(S, 2 * S, 3 * S);
    let b = Vec3d::new(3 * S, 4 * S, 5 * S);
    let cross = a.cross(&b);
    let neg_cross = b.cross(&a);
    assert!(near(a.dot(&cross), 0) && near(b.dot(&cross), 0));
    assert_eq!(cross.neg(), neg_cross);
}

#[test]
fn vec_3d_abs_normalized() {
    let _a = Vec3d::new(S, 2 * S, 3 * S);
    let b = Vec3d::new(3 * S, 4 * S, 5 * S);
    // |b| is the rounded-down square root of 50: check it as such.
    let r = b.abs() as i128;
    let fifty: i128 = 50 * (S as i128) * (S as i128);
    assert!(r * r <= fifty && fifty < (r + 1) * (r + 1));
    // The magnitude of the normalized vector rounds to 1.0.
    assert!((b.normalized().abs() - S).abs() <= 8);
}
