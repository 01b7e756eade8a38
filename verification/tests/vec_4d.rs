//! Component arithmetic of homogeneous 4-component vectors.

use rust_3d_course::math::vec_4d::Vec4d;
use rust_3d_course::SCALE;

const S: i64 = SCALE;

fn near(a: i64, b: i64) -> bool {
    (a - b).abs() <= 2
}

#[test]
fn vec_4d_copy() {
    let a = Vec4d::new(S, 2 * S, 3 * S, 4 * S);
    let _b = Vec4d::new(3 * S, 4 * S, 5 * S, 6 * S);
    let c = a.clone();
    assert!(near(c.x(), S) && near(c.y(), 2 * S) && near(c.z(), 3 * S) && near(c.w(), 4 * S));
}

#[test]
fn vec_4d_assign() {
    let _a = Vec4d::new(S, 2 * S, 3 * S, 4 * S);
    let b = Vec4d::new(3 * S, 4 * S, 5 * S, 6 * S);
    let c = b;
    assert!(near(c.x(), 3 * S) && near(c.y(), 4 * S) && near(c.z(), 5 * S) && near(c.w(), 6 * S));
}

#[test]
fn vec_4d_neg() {
    let a = Vec4d::new(S, 2 * S, 3 * S, 4 * S);
    let _b = Vec4d::new(3 * S, 4 * S, 5 * S, 6 * S);
    let neg = a.neg();
    assert!(
        near(neg.x(), -S) && near(neg.y(), -2 * S) && near(neg.z(), -3 * S) && near(neg.w(), -4 * S)
    );
}

#[test]
fn vec_4d_plus_minus() {
    let a = Vec4d::new(S, 2 * S, 3 * S, 4 * S);
    let b = Vec4d::new(3 * S, 4 * S, 5 * S, 6 * S);
    let summ = a.add(&b);
    let diff = a.sub(&b);
    assert!(
        near(summ.x(), 4 * S)
            && near(summ.y(), 6 * S)
            && near(summ.z(), 8 * S)
            && near(summ.w(), 10 * S)
    );
    assert!(
        near(diff.x(), -2 * S)
            && near(diff.y(), -2 * S)
            && near(diff.z(), -2 * S)
            && near(diff.w(), -2 * S)
    );
}

#[test]
fn vec_4d_eq() {
    let a = Vec4d::new(S, 2 * S, 3 * S, 4 * S);
    let b = Vec4d::new(3 * S, 4 * S, 5 * S, 6 * S);
    let c = b.clone();
    assert!(c != a && c == b);
}

#[test]
fn vec_4d_scale() {
    let a = Vec4d::new(S, 2 * S, 3 * S, 4 * S);
    let _b = Vec4d::new(3 * S, 4 * S, 5 * S, 6 * S);
    let scale1 = a.mul(2 * S);
    assert!(
        near(scale1.x(), 2 * S)
            && near(scale1.y(), 4 * S)
            && near(scale1.z(), 6 * S)
            && near(scale1.w(), 8 * S)
    );
    let scale2 = a.div(2 * S);
    assert!(
        near(scale2.x(), S / 2)
            && near(scale2.y(), S)
            && near(scale2.z(), 3 * S / 2)
            && near(scale2.w(), 2 * S)
    );
}

#[test]
fn vec_4d_abs_normalized() {
    let _a = Vec4d::new(S, 2 * S, 3 * S, 4 * S);
    let b = Vec4d::new(3 * S, 4 * S, 5 * S, 6 * S);
    // |b| is the rounded-down square root of 86: check it as such.
    let r = b.abs() as i128;
    let eighty_six: i128 = 86 * (S as i128) * (S as i128);
    assert!(r * r <= eighty_six && eighty_six < (r + 1) * (r + 1));
    // The magnitude of the normalized vector rounds to 1.0.
    assert!((b.normalized().abs() - S).abs() <= 8);
}
