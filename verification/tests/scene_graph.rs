//! Attachment, cycle rejection, weak references, and motion propagation.

use rust_3d_course::math::angle::Angle;
use rust_3d_course::math::vec_3d::Vec3d;
use rust_3d_course::object::{ObjectNameTag, ObjectStruct};
use rust_3d_course::scene::{AttachError, Scene, SceneEntry};
use rust_3d_course::SCALE;

const S: i64 = SCALE;

fn plain(scene: &mut Scene, name: &str) -> usize {
    scene.add(SceneEntry::Plain(ObjectStruct::new(ObjectNameTag::new(name))))
}

#[test]
fn nametag_text_and_contains() {
    let tag = ObjectNameTag::new("CubeOne");
    assert_eq!(tag.name(), "CubeOne");
    assert!(tag.contains("be"));
    assert!(tag.contains(""));
    assert!(!tag.contains("xyz"));
    assert!(tag == ObjectNameTag::new("CubeOne"));
    assert!(tag != ObjectNameTag::new("CubeTwo"));
}

#[test]
fn attach_to_self_fails() {
    let mut scene = Scene::new();
    let a = plain(&mut scene, "A");
    assert_eq!(scene.attach(a, a), Err(AttachError::SelfAttach));
}

#[test]
fn attach_cycle_fails() {
    let mut scene = Scene::new();
    let a = plain(&mut scene, "A");
    let b = plain(&mut scene, "B");
    assert_eq!(scene.attach(a, b), Ok(()));
    assert_eq!(scene.attach(b, a), Err(AttachError::CycleDetected));
}

#[test]
fn attach_transitive_cycle_fails() {
    let mut scene = Scene::new();
    let a = plain(&mut scene, "A");
    let b = plain(&mut scene, "B");
    let c = plain(&mut scene, "C");
    assert_eq!(scene.attach(a, b), Ok(()));
    assert_eq!(scene.attach(b, c), Ok(()));
    assert_eq!(scene.attach(c, a), Err(AttachError::CycleDetected));
    // The other direction stays a DAG and is accepted.
    assert_eq!(scene.attach(a, c), Ok(()));
}

#[test]
fn attached_and_unattach() {
    let mut scene = Scene::new();
    let a = plain(&mut scene, "A");
    let b = plain(&mut scene, "B");
    let tag_b = ObjectNameTag::new("B");
    assert_eq!(scene.attach(a, b), Ok(()));
    assert_eq!(scene.attached(a, &tag_b), Some(b));
    assert!(scene.check_if_attached(a, &tag_b));
    scene.unattach(a, &tag_b);
    assert_eq!(scene.attached(a, &tag_b), None);
    assert!(!scene.check_if_attached(a, &tag_b));
}

#[test]
fn translate_propagates_to_children() {
    let mut scene = Scene::new();
    let a = plain(&mut scene, "A");
    let b = plain(&mut scene, "B");
    scene.attach(a, b).unwrap();
    scene.translate(a, &Vec3d::new(S, 2 * S, 3 * S));
    let pa = scene.core_of(a).position;
    let pb = scene.core_of(b).position;
    assert_eq!((pa.x(), pa.y(), pa.z()), (S, 2 * S, 3 * S));
    assert_eq!((pb.x(), pb.y(), pb.z()), (S, 2 * S, 3 * S));
}

#[test]
fn translate_skips_destroyed_child() {
    let mut scene = Scene::new();
    let a = plain(&mut scene, "A");
    let b = plain(&mut scene, "B");
    scene.attach(a, b).unwrap();
    scene.destroy(b);
    // The parent still moves; the dead attachment is skipped silently.
    scene.translate(a, &Vec3d::new(S, 0, 0));
    let pa = scene.core_of(a).position;
    assert_eq!((pa.x(), pa.y(), pa.z()), (S, 0, 0));
    assert!(!scene.is_live(b));
    assert_eq!(scene.attached(a, &ObjectNameTag::new("B")), None);
}

#[test]
fn translate_to_point_and_back() {
    let mut scene = Scene::new();
    let a = plain(&mut scene, "A");
    scene.translate_to_point(a, &Vec3d::new(4 * S, 5 * S, 6 * S));
    let pa = scene.core_of(a).position;
    assert_eq!((pa.x(), pa.y(), pa.z()), (4 * S, 5 * S, 6 * S));
    scene.translate_to_point(a, &Vec3d::new(0, 0, 0));
    let pa2 = scene.core_of(a).position;
    assert_eq!((pa2.x(), pa2.y(), pa2.z()), (0, 0, 0));
}

#[test]
fn attract_to_point_moves_given_distance() {
    let mut scene = Scene::new();
    let a = plain(&mut scene, "A");
    scene.attract_to_point(a, &Vec3d::new(10 * S, 0, 0), 2 * S);
    let pa = scene.core_of(a).position;
    assert_eq!((pa.x(), pa.y(), pa.z()), (2 * S, 0, 0));
}

#[test]
fn attach_overwrites_same_tag() {
    let mut scene = Scene::new();
    let a = plain(&mut scene, "A");
    let b1 = plain(&mut scene, "B");
    let b2 = plain(&mut scene, "B");
    let tag_b = ObjectNameTag::new("B");
    scene.attach(a, b1).unwrap();
    scene.attach(a, b2).unwrap();
    assert_eq!(scene.core_of(a).attached_objects.len(), 1);
    assert_eq!(scene.attached(a, &tag_b), Some(b2));
}

#[test]
fn rotate_accumulates_angle_and_child_orbits() {
    let mut scene = Scene::new();
    let a = plain(&mut scene, "A");
    let b = plain(&mut scene, "B");
    scene.attach(a, b).unwrap();
    // Only the child stands away from the origin, at (1,0,0).
    scene.translate(b, &Vec3d::new(S, 0, 0));
    let q = Angle::quarter_turn();
    let z = Angle::zero();
    scene.rotate(a, &z, &z, &q);
    // The parent's Euler tracker accumulated the quarter turn about Z.
    let angle_a = scene.core_of(a).angle;
    assert_eq!((angle_a.x(), angle_a.y(), angle_a.z()), (0, 0, q.rad));
    // The child orbited the parent's position: (1,0,0) went to (0,1,0).
    let pb = scene.core_of(b).position;
    assert!((pb.x() - 0).abs() <= 2 && (pb.y() - S).abs() <= 2 && pb.z() == 0);
}

#[test]
fn random_vector_stays_in_unit_cube() {
    let v = Vec3d::random();
    assert!(0 <= v.x() && v.x() < S);
    assert!(0 <= v.y() && v.y() < S);
    assert!(0 <= v.z() && v.z() < S);
}
