//! Scene objects: nametags, the common positional state, and the sample
//! cube mesh.

use crate::color::Color;
use crate::fixed::SCALE;
use crate::math::matrix4x4::{
    col_x, col_y, col_z, mat_identity, mat_mul, mat_scale, mat_translation, mat_view, Matrix4x4,
};
use crate::math::vec_3d::{norm3, Vec3d};
use crate::math::vec_4d::Vec4d;
use crate::triangle::{mk_tri, tri_mul, Triangle};
use vstd::prelude::*;
use vstd::utf8::encode_utf8;

verus! {

/// `needle` occurs contiguously within `hay`.
pub open spec fn is_substring_of(needle: Seq<u8>, hay: Seq<u8>) -> bool {
    exists|i: int|
        0 <= i && i + needle.len() <= hay.len() && #[trigger] hay.subrange(i, i + needle.len())
            == needle
}

/// The needle bytes occur at position `at` of the haystack.
fn bytes_match_at(hay: &[u8], needle: &[u8], at: usize) -> (r: bool)
    requires
        at + needle@.len() <= hay@.len(),
    ensures
        r == (hay@.subrange(at as int, at + needle@.len()) == needle@),
{
    let n = needle.len();
    let h = hay.len();
    let mut j: usize = 0;
    while j < n
        invariant
            n == needle@.len(),
            h == hay@.len(),
            0 <= j <= n,
            at + n <= h,
            forall|k: int| 0 <= k < j ==> hay@[at + k] == needle@[k],
        decreases n - j,
    {
        if hay[at + j] != needle[j] {
            proof {
                assert(hay@.subrange(at as int, at + needle@.len())[j as int] == hay@[at + j]);
            }
            return false;
        }
        j += 1;
    }
    proof {
        assert(hay@.subrange(at as int, at + needle@.len()) =~= needle@);
    }
    true
}

/// Naive contiguous search for one byte sequence within another.
fn bytes_contains(hay: &[u8], needle: &[u8]) -> (r: bool)
    ensures
        r == is_substring_of(needle@, hay@),
{
    let n = needle.len();
    let h = hay.len();
    if n == 0 {
        proof {
            assert(hay@.subrange(0int, 0int + needle@.len()) =~= needle@);
        }
        return true;
    }
    if n > h {
        proof {
            if is_substring_of(needle@, hay@) {
                let i = choose|i: int|
                    0 <= i && i + needle@.len() <= hay@.len() && #[trigger] hay@.subrange(
                        i,
                        i + needle@.len(),
                    ) == needle@;
                assert(false);
            }
        }
        return false;
    }
    let mut i: usize = 0;
    while i <= h - n
        invariant
            n == needle@.len(),
            h == hay@.len(),
            1 <= n <= h,
            0 <= i <= h - n + 1,
            forall|k: int|
                0 <= k < i ==> #[trigger] hay@.subrange(k, k + needle@.len()) != needle@,
        decreases h - i,
    {
        if bytes_match_at(hay, needle, i) {
            assert(is_substring_of(needle@, hay@));
            return true;
        }
        i += 1;
    }
    false
}

/// A unique string identity for a scene object, used both as identity and
/// as the key of the attachment table.
#[derive(Clone, Debug)]
pub struct ObjectNameTag(pub String);

impl ObjectNameTag {
    /// Build a tag from its text.
    pub fn new(name: &str) -> (r: ObjectNameTag)
        ensures
            r.0@ == name@,
    {
        ObjectNameTag(name.to_owned())
    }

    /// The tag's text.
    pub fn name(&self) -> (r: &str)
        ensures
            r@ == self.0@,
    {
        self.0.as_str()
    }

    /// Whether the given text occurs within the tag's text.
    pub fn contains(&self, name_tag: &str) -> (r: bool)
        ensures
            r == is_substring_of(encode_utf8(name_tag@), encode_utf8(self.0@)),
    {
        bytes_contains(self.0.as_str().as_bytes(), name_tag.as_bytes())
    }

    /// A copy of the tag with the same text.
    pub fn clone_tag(&self) -> (r: ObjectNameTag)
        ensures
            r.0@ == self.0@,
    {
        ObjectNameTag(self.0.clone())
    }
}

impl PartialEq for ObjectNameTag {
    /// Tags are equal exactly when their texts are.
    fn eq(&self, other: &ObjectNameTag) -> (r: bool) {
        self.0 == other.0
    }
}

impl vstd::std_specs::cmp::PartialEqSpecImpl for ObjectNameTag {
    open spec fn obeys_eq_spec() -> bool {
        true
    }

    open spec fn eq_spec(&self, other: &ObjectNameTag) -> bool {
        self.0@ == other.0@
    }
}

/// One attachment: a weak, non-owning link to a child, keyed by the
/// child's nametag at attach time. The handle indexes the scene's arena
/// and does not keep the child alive.
pub struct AttachEntry {
    pub tag: ObjectNameTag,
    pub handle: usize,
}

/// The attachment table holds at most one entry per tag text.
pub open spec fn attach_entries_wf(entries: Seq<AttachEntry>) -> bool {
    forall|i: int, j: int|
        0 <= i < j < entries.len() ==> entries[i].tag.0@ != entries[j].tag.0@
}

/// The positional state that every scene object carries: identity, local
/// transform, position, the two accumulated angle trackers, and the weak
/// attachment table.
pub struct ObjectStruct {
    pub nametag: ObjectNameTag,
    pub transform: Matrix4x4,
    pub position: Vec3d,
    pub angle: Vec3d,
    pub angle_left_up_look_at: Vec3d,
    pub attached_objects: Vec<AttachEntry>,
}

impl ObjectStruct {
    /// A fresh object at the origin with the identity transform and no
    /// attachments.
    pub fn new(nametag: ObjectNameTag) -> (r: ObjectStruct)
        ensures
            r.nametag == nametag,
            r.transform == mat_identity(),
            r.position == (Vec3d { x: 0, y: 0, z: 0 }),
            r.angle == (Vec3d { x: 0, y: 0, z: 0 }),
            r.angle_left_up_look_at == (Vec3d { x: 0, y: 0, z: 0 }),
            r.attached_objects@ =~= Seq::<AttachEntry>::empty(),
    {
        ObjectStruct {
            nametag,
            transform: Matrix4x4::identity(),
            position: Vec3d { x: 0, y: 0, z: 0 },
            angle: Vec3d { x: 0, y: 0, z: 0 },
            angle_left_up_look_at: Vec3d { x: 0, y: 0, z: 0 },
            attached_objects: Vec::new(),
        }
    }

    /// The object's local left axis: the transform's first column,
    /// normalized.
    pub fn left(&self) -> (r: Vec3d)
        ensures
            r == norm3(col_x(self.transform)),
    {
        self.transform.x().normalized()
    }

    /// The object's local up axis: the transform's second column,
    /// normalized.
    pub fn up(&self) -> (r: Vec3d)
        ensures
            r == norm3(col_y(self.transform)),
    {
        self.transform.y().normalized()
    }

    /// The object's local forward axis: the transform's third column,
    /// normalized.
    pub fn look_at(&self) -> (r: Vec3d)
        ensures
            r == norm3(col_z(self.transform)),
    {
        self.transform.z().normalized()
    }

    /// The local-to-world matrix: translation to the position, then the
    /// local transform.
    pub fn model(&self) -> (r: Matrix4x4)
        ensures
            r == obj_model(*self),
    {
        Matrix4x4::translation(&self.position).mul(&self.transform)
    }

    /// The world-to-local matrix, by the orthonormal-basis inverse.
    pub fn inv_model(&self) -> (r: Matrix4x4)
        ensures
            r == mat_view(obj_model(*self)),
    {
        Matrix4x4::view(&self.model())
    }
}

/// The local-to-world matrix of an object.
pub open spec fn obj_model(o: ObjectStruct) -> Matrix4x4 {
    mat_mul(mat_translation(o.position), o.transform)
}

/// The twelve triangles of a unit cube with corners at 0 and 1. Corner
/// coordinates are whole fixed-point units.
pub open spec fn cube_unit_triangles(color: Color) -> Seq<Triangle> {
    let s = SCALE;
    seq![
        mk_tri(color, cpt(0, 0, 0), cpt(0, s, 0), cpt(s, s, 0)),
        mk_tri(color, cpt(0, 0, 0), cpt(s, s, 0), cpt(s, 0, 0)),
        mk_tri(color, cpt(s, 0, 0), cpt(s, s, 0), cpt(s, s, s)),
        mk_tri(color, cpt(s, 0, 0), cpt(s, s, s), cpt(s, 0, s)),
        mk_tri(color, cpt(s, 0, s), cpt(s, s, s), cpt(0, s, s)),
        mk_tri(color, cpt(s, 0, s), cpt(0, s, s), cpt(0, 0, s)),
        mk_tri(color, cpt(0, 0, s), cpt(0, s, s), cpt(0, s, 0)),
        mk_tri(color, cpt(0, 0, s), cpt(0, s, 0), cpt(0, 0, 0)),
        mk_tri(color, cpt(0, s, 0), cpt(0, s, s), cpt(s, s, s)),
        mk_tri(color, cpt(0, s, 0), cpt(s, s, s), cpt(s, s, 0)),
        mk_tri(color, cpt(s, 0, s), cpt(0, 0, s), cpt(0, 0, 0)),
        mk_tri(color, cpt(s, 0, s), cpt(0, 0, 0), cpt(s, 0, 0)),
    ]
}

/// The cube's triangles after the centering-and-scaling basis `m`.
pub open spec fn cube_triangles(m: Matrix4x4, color: Color) -> Seq<Triangle> {
    cube_unit_triangles(color).map_values(|t: Triangle| tri_mul(t, m))
}

/// A cube corner as a homogeneous point with unit weight.
pub open spec fn cpt(x: i64, y: i64, z: i64) -> Vec4d {
    Vec4d { x, y, z, w: SCALE }
}

/// The matrix that centers the unit cube on the origin and scales it to
/// the requested edge length.
pub open spec fn cube_basis(size: i64) -> Matrix4x4 {
    mat_mul(
        mat_scale(Vec3d { x: size, y: size, z: size }),
        mat_translation(Vec3d { x: -32768i64, y: -32768i64, z: -32768i64 }),
    )
}

/// The sample mesh: a cube of twelve triangles around the origin, with a
/// uniform color and a visibility flag.
pub struct Cube {
    pub obj: ObjectStruct,
    pub color: Color,
    pub triangles: Vec<Triangle>,
    pub visible: bool,
}

impl Cube {
    /// Build a cube with the given edge length, centered on the origin.
    #[verifier::rlimit(60)]
    pub fn new(nametag: ObjectNameTag, size: i64, color: Color) -> (r: Cube)
        ensures
            r.obj.nametag == nametag,
            r.obj.transform == mat_identity(),
            r.obj.position == (Vec3d { x: 0, y: 0, z: 0 }),
            r.obj.angle == (Vec3d { x: 0, y: 0, z: 0 }),
            r.obj.angle_left_up_look_at == (Vec3d { x: 0, y: 0, z: 0 }),
            r.obj.attached_objects@ =~= Seq::<AttachEntry>::empty(),
            r.color == color,
            r.visible == true,
            r.triangles@ =~= cube_triangles(cube_basis(size), color),
    {
        let obj = ObjectStruct::new(nametag);
        let mut cube = Cube { obj, color, triangles: Vec::new(), visible: true };
        let s = SCALE;
        cube.triangles.push(Triangle::new(
            color,
            Vec4d::new(0, 0, 0, s),
            Vec4d::new(0, s, 0, s),
            Vec4d::new(s, s, 0, s),
        ));
        cube.triangles.push(Triangle::new(
            color,
            Vec4d::new(0, 0, 0, s),
            Vec4d::new(s, s, 0, s),
            Vec4d::new(s, 0, 0, s),
        ));
        cube.triangles.push(Triangle::new(
            color,
            Vec4d::new(s, 0, 0, s),
            Vec4d::new(s, s, 0, s),
            Vec4d::new(s, s, s, s),
        ));
        cube.triangles.push(Triangle::new(
            color,
            Vec4d::new(s, 0, 0, s),
            Vec4d::new(s, s, s, s),
            Vec4d::new(s, 0, s, s),
        ));
        cube.triangles.push(Triangle::new(
            color,
            Vec4d::new(s, 0, s, s),
            Vec4d::new(s, s, s, s),
            Vec4d::new(0, s, s, s),
        ));
        cube.triangles.push(Triangle::new(
            color,
            Vec4d::new(s, 0, s, s),
            Vec4d::new(0, s, s, s),
            Vec4d::new(0, 0, s, s),
        ));
        cube.triangles.push(Triangle::new(
            color,
            Vec4d::new(0, 0, s, s),
            Vec4d::new(0, s, s, s),
            Vec4d::new(0, s, 0, s),
        ));
        cube.triangles.push(Triangle::new(
            color,
            Vec4d::new(0, 0, s, s),
            Vec4d::new(0, s, 0, s),
            Vec4d::new(0, 0, 0, s),
        ));
        cube.triangles.push(Triangle::new(
            color,
            Vec4d::new(0, s, 0, s),
            Vec4d::new(0, s, s, s),
            Vec4d::new(s, s, s, s),
        ));
        cube.triangles.push(Triangle::new(
            color,
            Vec4d::new(0, s, 0, s),
            Vec4d::new(s, s, s, s),
            Vec4d::new(s, s, 0, s),
        ));
        cube.triangles.push(Triangle::new(
            color,
            Vec4d::new(s, 0, s, s),
            Vec4d::new(0, 0, s, s),
            Vec4d::new(0, 0, 0, s),
        ));
        cube.triangles.push(Triangle::new(
            color,
            Vec4d::new(s, 0, s, s),
            Vec4d::new(0, 0, 0, s),
            Vec4d::new(s, 0, 0, s),
        ));
        let m = Matrix4x4::scale(&Vec3d::new(size, size, size)).mul(&Matrix4x4::translation(
            &Vec3d::new(-32768, -32768, -32768),
        ));
        proof {
            assert(cube.triangles@ =~= cube_unit_triangles(color));
            assert(m == cube_basis(size));
        }
        let ghost tris0 = cube.triangles@;
        cube.transform_triangles(&m);
        proof {
            assert forall|i: int| 0 <= i < cube.triangles@.len() implies cube.triangles@[i]
                == cube_triangles(cube_basis(size), color)[i] by {
                assert(cube.triangles@[i] == tri_mul(tris0[i], m));
            }
            assert(cube.triangles@ =~= cube_triangles(cube_basis(size), color));
        }
        cube
    }

    /// Carry every triangle of the mesh through a matrix.
    pub fn transform_triangles(&mut self, rhs: &Matrix4x4)
        ensures
            final(self).obj == old(self).obj,
            final(self).color == old(self).color,
            final(self).visible == old(self).visible,
            final(self).triangles@ =~= old(self).triangles@.map_values(
                |t: Triangle| tri_mul(t, *rhs),
            ),
    {
        let n = self.triangles.len();
        let mut new_tries: Vec<Triangle> = Vec::new();
        let mut i: usize = 0;
        while i < n
            invariant
                n == self.triangles@.len(),
                0 <= i <= n,
                new_tries@ =~= self.triangles@.take(i as int).map_values(
                    |t: Triangle| tri_mul(t, *rhs),
                ),
            decreases n - i,
        {
            new_tries.push(self.triangles[i].mul(rhs));
            proof {
                assert(self.triangles@.take(i + 1).drop_last() =~= self.triangles@.take(i as int));
            }
            i += 1;
        }
        proof {
            assert(self.triangles@.take(n as int) =~= self.triangles@);
        }
        self.triangles = new_tries;
    }

    /// Mutable access to the mesh color.
    pub fn color_mut(&mut self) -> (r: &mut Color)
        ensures
            *r == old(self).color,
            final(self).color == *final(r),
            final(self).obj == old(self).obj,
            final(self).triangles == old(self).triangles,
            final(self).visible == old(self).visible,
    {
        &mut self.color
    }

    /// Mutable access to the visibility flag.
    pub fn visible_mut(&mut self) -> (r: &mut bool)
        ensures
            *r == old(self).visible,
            final(self).visible == *final(r),
            final(self).obj == old(self).obj,
            final(self).triangles == old(self).triangles,
            final(self).color == old(self).color,
    {
        &mut self.visible
    }
}


/// The capability set of a scene object: anything that carries the common
/// positional state. Motion and attachment walk the scene graph and live
/// on the arena; this interface exposes the state itself.
pub trait Object {
    /// The positional state, for specifications.
    spec fn obj_spec(&self) -> ObjectStruct;

    /// The object's nametag.
    fn nametag(&self) -> (r: &ObjectNameTag)
        ensures
            r == &self.obj_spec().nametag,
    ;

    /// The object's local transform.
    fn transform_matrix(&self) -> (r: &Matrix4x4)
        ensures
            r == &self.obj_spec().transform,
    ;

    /// The object's position.
    fn position(&self) -> (r: &Vec3d)
        ensures
            r == &self.obj_spec().position,
    ;

    /// The accumulated Euler angle.
    fn angle(&self) -> (r: &Vec3d)
        ensures
            r == &self.obj_spec().angle,
    ;

    /// The accumulated roll about the local axes.
    fn angle_left_up_look_at(&self) -> (r: &Vec3d)
        ensures
            r == &self.obj_spec().angle_left_up_look_at,
    ;

    /// The attachment table.
    fn attached_objects(&self) -> (r: &Vec<AttachEntry>)
        ensures
            r == &self.obj_spec().attached_objects,
    ;
}

/// A mesh: an object with a triangle list, a color and a visibility flag.
pub trait Mesh: Object {
    /// The mesh color, for specifications.
    spec fn color_spec(&self) -> Color;

    /// The triangle list, for specifications.
    spec fn triangles_spec(&self) -> Seq<Triangle>;

    /// The visibility flag, for specifications.
    spec fn visible_spec(&self) -> bool;

    /// The mesh color.
    fn color(&self) -> (r: Color)
        ensures
            r == self.color_spec(),
    ;

    /// The triangle list.
    fn triangles(&self) -> (r: &Vec<Triangle>)
        ensures
            r@ == self.triangles_spec(),
    ;

    /// The visibility flag.
    fn visible(&self) -> (r: bool)
        ensures
            r == self.visible_spec(),
    ;
}

impl Object for ObjectStruct {
    open spec fn obj_spec(&self) -> ObjectStruct {
        *self
    }

    fn nametag(&self) -> (r: &ObjectNameTag) {
        &self.nametag
    }

    fn transform_matrix(&self) -> (r: &Matrix4x4) {
        &self.transform
    }

    fn position(&self) -> (r: &Vec3d) {
        &self.position
    }

    fn angle(&self) -> (r: &Vec3d) {
        &self.angle
    }

    fn angle_left_up_look_at(&self) -> (r: &Vec3d) {
        &self.angle_left_up_look_at
    }

    fn attached_objects(&self) -> (r: &Vec<AttachEntry>) {
        &self.attached_objects
    }
}

impl Object for Cube {
    open spec fn obj_spec(&self) -> ObjectStruct {
        self.obj
    }

    fn nametag(&self) -> (r: &ObjectNameTag) {
        &self.obj.nametag
    }

    fn transform_matrix(&self) -> (r: &Matrix4x4) {
        &self.obj.transform
    }

    fn position(&self) -> (r: &Vec3d) {
        &self.obj.position
    }

    fn angle(&self) -> (r: &Vec3d) {
        &self.obj.angle
    }

    fn angle_left_up_look_at(&self) -> (r: &Vec3d) {
        &self.obj.angle_left_up_look_at
    }

    fn attached_objects(&self) -> (r: &Vec<AttachEntry>) {
        &self.obj.attached_objects
    }
}

impl Mesh for Cube {
    open spec fn color_spec(&self) -> Color {
        self.color
    }

    open spec fn triangles_spec(&self) -> Seq<Triangle> {
        self.triangles@
    }

    open spec fn visible_spec(&self) -> bool {
        self.visible
    }

    fn color(&self) -> (r: Color) {
        self.color
    }

    fn triangles(&self) -> (r: &Vec<Triangle>) {
        &self.triangles
    }

    fn visible(&self) -> (r: bool) {
        self.visible
    }
}

} // verus!
