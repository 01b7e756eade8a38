//! The camera: frustum planes, the combined projection matrix, and the
//! per-frame pipeline that turns meshes into depth-ordered screen triangles.

use crate::color::Color;
use crate::fixed::{div_fx, fx_from_int, fx_div, fx_mul, int_fx, lemma_quot_mag, mag, mul_fx, quot, SCALE};
use crate::math::matrix4x4::{mat_mul, mat_projection, mat_screen_space, mat_view, Matrix4x4};
use crate::math::plane::{clip_spec, Plane};
use crate::math::vec_3d::{dot3, from4, norm3, sub3, Vec3d};
use crate::math::vec_4d::div4;
use crate::object::{obj_model, Cube, Mesh, ObjectNameTag, ObjectStruct};
use crate::triangle::{mk_tri, tri_mul, Triangle};
use vstd::prelude::*;
use vstd::seq_lib::*;

verus! {

/// A projected point landed exactly on the camera plane, so the
/// perspective divide is undefined. The drawing of that frame is refused
/// rather than performed with meaningless coordinates.
#[derive(Clone, Copy, Debug, PartialEq, Eq, Structural)]
pub enum ProjectError {
    DegenerateDepth,
}

/// The camera: the positional state of an object, the per-frame triangle
/// buffer, the six frustum planes, the aspect ratio and the combined
/// screen-space × projection matrix.
pub struct MyCamera {
    pub obj: ObjectStruct,
    pub triangles: Vec<Triangle>,
    pub clip_planes: Vec<Plane>,
    pub aspect: i64,
    pub sp: Matrix4x4,
}

/// The lighting factor `0.3·|d| + 0.7` on the fixed-point grid.
pub open spec fn shade_factor(d: int) -> int {
    quot(3 * mag(d) + 458752, 10)
}

/// One color channel scaled by the lighting factor, clamped to its range.
pub open spec fn shade_channel(c: u8, f: int) -> int {
    let v = quot(c * f, SCALE as int);
    if v > 255 {
        255
    } else {
        v
    }
}

/// The flat ambient shading of a color: each color channel is scaled by
/// `0.3·|d| + 0.7`; the alpha channel is kept.
pub open spec fn shade_color(c: Color, d: int) -> Color {
    let f = shade_factor(d);
    Color {
        r: shade_channel(c.r, f) as u8,
        g: shade_channel(c.g, f) as u8,
        b: shade_channel(c.b, f) as u8,
        a: c.a,
    }
}

/// The six frustum planes in camera space: near, far, and the four side
/// planes through the origin, their normals built from the tangent of the
/// half field-of-view (the horizontal ones widened by the aspect ratio).
pub open spec fn camera_planes(tan_half_fov: i64, aspect: i64, znear: i64, zfar: i64) -> Seq<
    Plane,
> {
    let t1 = tan_half_fov;
    let t2 = mul_fx(aspect as int, t1 as int) as i64;
    seq![
        Plane { normal: norm3(Vec3d { x: 0, y: 0, z: SCALE }), point: Vec3d { x: 0, y: 0, z: znear } },
        Plane { normal: norm3(Vec3d { x: 0, y: 0, z: (-SCALE) as i64 }), point: Vec3d { x: 0, y: 0, z: zfar } },
        Plane { normal: norm3(Vec3d { x: (-SCALE) as i64, y: 0, z: t2 }), point: Vec3d { x: 0, y: 0, z: 0 } },
        Plane { normal: norm3(Vec3d { x: SCALE, y: 0, z: t2 }), point: Vec3d { x: 0, y: 0, z: 0 } },
        Plane { normal: norm3(Vec3d { x: 0, y: SCALE, z: t1 }), point: Vec3d { x: 0, y: 0, z: 0 } },
        Plane { normal: norm3(Vec3d { x: 0, y: (-SCALE) as i64, z: t1 }), point: Vec3d { x: 0, y: 0, z: 0 } },
    ]
}

/// One clipping pass of a plane over a working list, taking candidates
/// from the back of the list, as the pipeline's buffer swap does.
pub open spec fn clip_pass(plane: Plane, tris: Seq<Triangle>) -> Seq<Triangle>
    decreases tris.len(),
{
    if tris.len() == 0 {
        Seq::empty()
    } else {
        clip_spec(plane.normal, plane.point, tris.last()) + clip_pass(plane, tris.drop_last())
    }
}

/// The working list after clipping against every plane, in order.
pub open spec fn clip_chain(planes: Seq<Plane>, tris: Seq<Triangle>) -> Seq<Triangle>
    decreases planes.len(),
{
    if planes.len() == 0 {
        tris
    } else {
        clip_pass(planes.last(), clip_chain(planes.drop_last(), tris))
    }
}

/// The lighting term of a source triangle: the dot product of its
/// world-space normal with the direction from the camera to its first
/// vertex.
#[verifier::opaque]
pub open spec fn source_dot(pos: Vec3d, mm: Matrix4x4, t: Triangle) -> int {
    let w = tri_mul(t, mm);
    dot3(w.normal, norm3(sub3(from4(w.points[0]), pos)))
}

/// The camera-space candidates that survive the frustum for one source
/// triangle.
pub open spec fn source_clipped(planes: Seq<Plane>, mm: Matrix4x4, vm: Matrix4x4, t: Triangle) -> Seq<
    Triangle,
> {
    clip_chain(planes, seq![tri_mul(tri_mul(t, mm), vm)])
}

/// A clipped triangle projected by `sp` has a point on the camera plane.
#[verifier::opaque]
pub open spec fn tri_degenerate(sp: Matrix4x4, ct: Triangle) -> bool {
    let pj = tri_mul(ct, sp);
    pj.points[0].w == 0 || pj.points[1].w == 0 || pj.points[2].w == 0
}

/// Some candidate in the list projects onto the camera plane.
pub open spec fn any_degenerate(sp: Matrix4x4, s: Seq<Triangle>) -> bool
    decreases s.len(),
{
    if s.len() == 0 {
        false
    } else {
        any_degenerate(sp, s.drop_last()) || tri_degenerate(sp, s.last())
    }
}

/// A surviving candidate turned into a screen triangle: shaded, projected
/// by `sp`, and divided by each point's own homogeneous component.
#[verifier::opaque]
pub open spec fn finalize_tri(sp: Matrix4x4, d: int, ct: Triangle) -> Triangle {
    let pj = tri_mul(ct, sp);
    mk_tri(
        shade_color(ct.color, d),
        div4(pj.points[0], pj.points[0].w as int),
        div4(pj.points[1], pj.points[1].w as int),
        div4(pj.points[2], pj.points[2].w as int),
    )
}

/// Every screen triangle one source triangle contributes, in order.
pub open spec fn source_outputs(
    pos: Vec3d,
    planes: Seq<Plane>,
    mm: Matrix4x4,
    vm: Matrix4x4,
    sp: Matrix4x4,
    t: Triangle,
) -> Seq<Triangle> {
    source_clipped(planes, mm, vm, t).map_values(
        |ct: Triangle| finalize_tri(sp, source_dot(pos, mm, t), ct),
    )
}

/// Every screen triangle a mesh contributes, source triangles in order.
pub open spec fn mesh_outputs(
    pos: Vec3d,
    planes: Seq<Plane>,
    mm: Matrix4x4,
    vm: Matrix4x4,
    sp: Matrix4x4,
    tris: Seq<Triangle>,
) -> Seq<Triangle>
    decreases tris.len(),
{
    if tris.len() == 0 {
        Seq::empty()
    } else {
        mesh_outputs(pos, planes, mm, vm, sp, tris.drop_last()) + source_outputs(
            pos,
            planes,
            mm,
            vm,
            sp,
            tris.last(),
        )
    }
}

/// Some surviving candidate of some source triangle projects onto the
/// camera plane.
pub open spec fn mesh_degenerate(
    pos: Vec3d,
    planes: Seq<Plane>,
    mm: Matrix4x4,
    vm: Matrix4x4,
    sp: Matrix4x4,
    tris: Seq<Triangle>,
) -> bool
    decreases tris.len(),
{
    if tris.len() == 0 {
        false
    } else {
        mesh_degenerate(pos, planes, mm, vm, sp, tris.drop_last()) || any_degenerate(
            sp,
            source_clipped(planes, mm, vm, tris.last()),
        )
    }
}

/// The painter's-algorithm sort key: the sum of the three vertices' depth
/// components.
pub open spec fn zsum(t: Triangle) -> int {
    t.points[0].z + t.points[1].z + t.points[2].z
}

/// The predicate of one sort-key class.
pub open spec fn zsum_is(k: int) -> spec_fn(Triangle) -> bool {
    |t: Triangle| zsum(t) == k
}

/// The buffer is ordered back to front: keys never decrease.
pub open spec fn sorted_by_zsum(s: Seq<Triangle>) -> bool {
    forall|i: int, j: int| 0 <= i < j < s.len() ==> zsum(s[i]) <= zsum(s[j])
}

/// The shading factor applied to one channel, on wide intermediates.
fn shade_channel_exec(c: u8, f: i128) -> (r: u8)
    requires
        0 <= f <= 0x100000000000000000000i128,
    ensures
        r == shade_channel(c, f as int),
{
    proof {
        assert(0 <= (c as i128 as int) * (f as int) <= 0xff * 0x100000000000000000000int)
            by (nonlinear_arith)
            requires
                0 <= c as int <= 0xff,
                0 <= f as int <= 0x100000000000000000000int,
        ;
    }
    let num: i128 = (c as i128) * f;
    let v: i128 = num / 65536;
    proof {
        lemma_quot_mag(num as int, 65536);
        assert(v == quot(num as int, 65536));
    }
    if v > 255 {
        255
    } else {
        v as u8
    }
}

/// The flat ambient shading of a color.
fn shade(c: Color, d: i64) -> (r: Color)
    ensures
        r == shade_color(c, d as int),
{
    let md: i128 = if d < 0 {
        -(d as i128)
    } else {
        d as i128
    };
    let num: i128 = 3 * md + 458752;
    let f: i128 = num / 10;
    proof {
        lemma_quot_mag(num as int, 10);
        assert(f == quot(3 * mag(d as int) + 458752, 10));
        assert(0 <= f <= 0x100000000000000000000i128);
    }
    Color {
        r: shade_channel_exec(c.r, f),
        g: shade_channel_exec(c.g, f),
        b: shade_channel_exec(c.b, f),
        a: c.a,
    }
}


/// A list with a degenerate candidate at some index is degenerate.
proof fn lemma_any_degenerate_index(sp: Matrix4x4, s: Seq<Triangle>, i: int)
    requires
        0 <= i < s.len(),
        tri_degenerate(sp, s[i]),
    ensures
        any_degenerate(sp, s),
    decreases s.len(),
{
    if i == s.len() - 1 {
    } else {
        lemma_any_degenerate_index(sp, s.drop_last(), i);
    }
}

/// A mesh with a degenerate source triangle at some index is degenerate.
proof fn lemma_mesh_degenerate_index(
    pos: Vec3d,
    planes: Seq<Plane>,
    mm: Matrix4x4,
    vm: Matrix4x4,
    sp: Matrix4x4,
    tris: Seq<Triangle>,
    i: int,
)
    requires
        0 <= i < tris.len(),
        any_degenerate(sp, source_clipped(planes, mm, vm, tris[i])),
    ensures
        mesh_degenerate(pos, planes, mm, vm, sp, tris),
    decreases tris.len(),
{
    if i == tris.len() - 1 {
    } else {
        lemma_mesh_degenerate_index(pos, planes, mm, vm, sp, tris.drop_last(), i);
    }
}

/// A filter over a list without a matching element is empty.
proof fn lemma_filter_all_false(s: Seq<Triangle>, pred: spec_fn(Triangle) -> bool)
    requires
        forall|q: int| 0 <= q < s.len() ==> !pred(s[q]),
    ensures
        s.filter(pred) == Seq::<Triangle>::empty(),
    decreases s.len(),
{
    reveal(Seq::filter);
    if s.len() == 0 {
        assert(s =~= Seq::<Triangle>::empty());
    } else {
        lemma_filter_all_false(s.drop_last(), pred);
    }
}

/// Filtering a single element keeps or drops it.
proof fn lemma_filter_singleton(x: Triangle, pred: spec_fn(Triangle) -> bool)
    ensures
        pred(x) ==> seq![x].filter(pred) == seq![x],
        !pred(x) ==> seq![x].filter(pred) == Seq::<Triangle>::empty(),
{
    reveal(Seq::filter);
    assert(seq![x].drop_last() =~= Seq::<Triangle>::empty());
    assert(Seq::<Triangle>::empty().filter(pred) == Seq::<Triangle>::empty());
    if pred(x) {
        assert(Seq::<Triangle>::empty().push(x) =~= seq![x]);
    }
}

/// The sort key of a triangle, on a wide intermediate.
fn zsum_exec(t: &Triangle) -> (r: i128)
    ensures
        r == zsum(*t),
{
    (t.points[0].z as i128) + (t.points[1].z as i128) + (t.points[2].z as i128)
}

/// Stable insertion sort by the summed-depth key: each element goes after
/// every element whose key is not larger, so equal keys keep their order.
fn sort_triangles(input: &Vec<Triangle>) -> (r: Vec<Triangle>)
    ensures
        sorted_by_zsum(r@),
        forall|k: int| #[trigger] r@.filter(zsum_is(k)) == input@.filter(zsum_is(k)),
{
    let mut out: Vec<Triangle> = Vec::new();
    let n = input.len();
    let mut i: usize = 0;
    while i < n
        invariant
            n == input@.len(),
            0 <= i <= n,
            sorted_by_zsum(out@),
            forall|k: int| #[trigger] out@.filter(zsum_is(k)) == input@.take(i as int).filter(
                zsum_is(k),
            ),
        decreases n - i,
    {
        let t = input[i];
        let key = zsum_exec(&t);
        let mut pos: usize = out.len();
        while pos > 0 && zsum_exec(&out[pos - 1]) > key
            invariant
                0 <= pos <= out@.len(),
                key == zsum(t),
                sorted_by_zsum(out@),
                forall|q: int| pos <= q < out@.len() ==> zsum(out@[q]) > zsum(t),
            decreases pos,
        {
            pos -= 1;
        }
        let ghost o0 = out@;
        out.insert(pos, t);
        proof {
            let ghost fore = o0.subrange(0, pos as int);
            let ghost aft = o0.subrange(pos as int, o0.len() as int);
            assert(out@ =~= fore + seq![t] + aft);
            assert(o0 =~= fore + aft);
            assert forall|q: int| 0 <= q < pos implies zsum(o0[q]) <= zsum(t) by {
                assert(zsum(o0[pos - 1]) <= zsum(t));
                if q < pos - 1 {
                    assert(zsum(o0[q]) <= zsum(o0[pos - 1]));
                }
            }
            assert forall|a: int, b: int| 0 <= a < b < out@.len() implies zsum(out@[a]) <= zsum(
                out@[b],
            ) by {
                if a < pos {
                    assert(out@[a] == o0[a]);
                } else if a == pos {
                    assert(out@[a] == t);
                } else {
                    assert(out@[a] == o0[a - 1]);
                }
                if b < pos {
                    assert(out@[b] == o0[b]);
                } else if b == pos {
                    assert(out@[b] == t);
                } else {
                    assert(out@[b] == o0[b - 1]);
                }
            }
            assert forall|k: int| #[trigger] out@.filter(zsum_is(k)) == input@.take(
                i + 1,
            ).filter(zsum_is(k)) by {
                let pk = zsum_is(k);
                Seq::filter_distributes_over_add(fore + seq![t], aft, pk);
                Seq::filter_distributes_over_add(fore, seq![t], pk);
                Seq::filter_distributes_over_add(fore, aft, pk);
                lemma_filter_singleton(t, pk);
                assert(input@.take(i + 1) =~= input@.take(i as int) + seq![t]);
                Seq::filter_distributes_over_add(input@.take(i as int), seq![t], pk);
                assert(o0.filter(pk) == input@.take(i as int).filter(pk));
                if pk(t) {
                    lemma_filter_all_false(aft, pk);
                    assert(fore.filter(pk) + Seq::<Triangle>::empty() =~= fore.filter(pk));
                    assert(out@.filter(pk) =~= o0.filter(pk) + seq![t]);
                    assert(input@.take(i + 1).filter(pk) =~= input@.take(i as int).filter(pk)
                        + seq![t]);
                } else {
                    assert(out@.filter(pk) =~= fore.filter(pk) + aft.filter(pk));
                    assert(input@.take(i + 1).filter(pk) =~= input@.take(i as int).filter(pk));
                }
            }
        }
        i += 1;
    }
    proof {
        assert(input@.take(n as int) =~= input@);
    }
    out
}

/// An element-wise copy of a triangle list.
fn copy_triangles(v: &Vec<Triangle>) -> (r: Vec<Triangle>)
    ensures
        r@ =~= v@,
{
    let mut r: Vec<Triangle> = Vec::new();
    let n = v.len();
    let mut i: usize = 0;
    while i < n
        invariant
            n == v@.len(),
            0 <= i <= n,
            r@ =~= v@.take(i as int),
        decreases n - i,
    {
        r.push(v[i]);
        proof {
            assert(v@.take(i + 1).drop_last() =~= v@.take(i as int));
        }
        i += 1;
    }
    proof {
        assert(v@.take(n as int) =~= v@);
    }
    r
}

impl MyCamera {
    /// A fresh camera with an empty buffer, no planes, and the identity
    /// combined matrix.
    pub fn new(name: &str) -> (r: MyCamera)
        ensures
            r.obj.nametag.0@ == name@,
            r.obj.transform == crate::math::matrix4x4::mat_identity(),
            r.obj.position == (Vec3d { x: 0, y: 0, z: 0 }),
            r.obj.angle == (Vec3d { x: 0, y: 0, z: 0 }),
            r.obj.angle_left_up_look_at == (Vec3d { x: 0, y: 0, z: 0 }),
            r.obj.attached_objects@ =~= Seq::<crate::object::AttachEntry>::empty(),
            r.triangles@ =~= Seq::<Triangle>::empty(),
            r.clip_planes@ =~= Seq::<Plane>::empty(),
            r.aspect == 0,
            r.sp == crate::math::matrix4x4::mat_identity(),
    {
        MyCamera {
            obj: ObjectStruct::new(ObjectNameTag::new(name)),
            triangles: Vec::new(),
            clip_planes: Vec::new(),
            aspect: 0,
            sp: Matrix4x4::identity(),
        }
    }

    /// Set up the projection for a viewport: compute the aspect ratio,
    /// build the combined screen-space × projection matrix, and append the
    /// six frustum planes. Trigonometry stays outside: the caller hands in
    /// the tangent of the half field-of-view.
    pub fn init(&mut self, width: i64, height: i64, tan_half_fov: i64, znear: i64, zfar: i64)
        ensures
            final(self).obj == old(self).obj,
            final(self).triangles == old(self).triangles,
            final(self).aspect == div_fx(int_fx(width as int), int_fx(height as int)),
            final(self).sp == mat_mul(
                mat_screen_space(width as int, height as int),
                mat_projection(tan_half_fov, final(self).aspect, znear, zfar),
            ),
            final(self).clip_planes@ =~= old(self).clip_planes@ + camera_planes(
                tan_half_fov,
                final(self).aspect,
                znear,
                zfar,
            ),
    {
        self.aspect = fx_div(fx_from_int(width), fx_from_int(height));
        let p = Matrix4x4::projection(tan_half_fov, self.aspect, znear, zfar);
        let s = Matrix4x4::screen_space(width, height);
        self.sp = s.mul(&p);
        self.clip_planes.push(Plane::new(Vec3d::new(0, 0, SCALE), Vec3d::new(0, 0, znear)));
        self.clip_planes.push(Plane::new(Vec3d::new(0, 0, -SCALE), Vec3d::new(0, 0, zfar)));
        let t2 = fx_mul(self.aspect, tan_half_fov);
        self.clip_planes.push(Plane::new(Vec3d::new(-SCALE, 0, t2), Vec3d::new(0, 0, 0)));
        self.clip_planes.push(Plane::new(Vec3d::new(SCALE, 0, t2), Vec3d::new(0, 0, 0)));
        self.clip_planes.push(Plane::new(Vec3d::new(0, SCALE, tan_half_fov), Vec3d::new(0, 0, 0)));
        self.clip_planes.push(Plane::new(Vec3d::new(0, -SCALE, tan_half_fov), Vec3d::new(0, 0, 0)));
    }

    /// The number of triangles waiting in the per-frame buffer.
    pub fn buffsize(&self) -> (r: usize)
        ensures
            r == self.triangles@.len(),
    {
        self.triangles.len()
    }

    /// Empty the per-frame buffer. The frame loop calls this after the
    /// sorted triangles are consumed, or they accumulate across frames.
    pub fn clear(&mut self)
        ensures
            final(self).obj == old(self).obj,
            final(self).clip_planes == old(self).clip_planes,
            final(self).aspect == old(self).aspect,
            final(self).sp == old(self).sp,
            final(self).triangles@ =~= Seq::<Triangle>::empty(),
    {
        self.triangles.clear();
    }

    /// Run one mesh through the pipeline: transform to world space, light,
    /// transform to camera space, clip against every frustum plane, shade,
    /// project and perspective-divide, appending to the per-frame buffer.
    /// The lighting term could also drive back-face culling; that cull is
    /// deliberately not applied, so every surviving triangle is kept
    /// whatever its facing, and the term only shades the color.
    /// The whole buffer so far is returned. If a surviving point lands
    /// exactly on the camera plane its divide is undefined: the buffer is
    /// left untouched and the frame refused.
    #[verifier::rlimit(100)]
    pub fn project(&mut self, mesh: &Cube) -> (r: Result<Vec<Triangle>, ProjectError>)
        ensures
            final(self).obj == old(self).obj,
            final(self).clip_planes == old(self).clip_planes,
            final(self).aspect == old(self).aspect,
            final(self).sp == old(self).sp,
            !mesh.visible ==> final(self).triangles == old(self).triangles && (r matches Ok(v)
                && v@ =~= Seq::<Triangle>::empty()),
            mesh.visible && mesh_degenerate(
                old(self).obj.position,
                old(self).clip_planes@,
                obj_model(mesh.obj),
                mat_view(obj_model(old(self).obj)),
                old(self).sp,
                mesh.triangles@,
            ) ==> final(self).triangles == old(self).triangles && r == Result::<
                Vec<Triangle>,
                ProjectError,
            >::Err(ProjectError::DegenerateDepth),
            mesh.visible && !mesh_degenerate(
                old(self).obj.position,
                old(self).clip_planes@,
                obj_model(mesh.obj),
                mat_view(obj_model(old(self).obj)),
                old(self).sp,
                mesh.triangles@,
            ) ==> final(self).triangles@ =~= old(self).triangles@ + mesh_outputs(
                old(self).obj.position,
                old(self).clip_planes@,
                obj_model(mesh.obj),
                mat_view(obj_model(old(self).obj)),
                old(self).sp,
                mesh.triangles@,
            ) && (r matches Ok(v) && v@ =~= final(self).triangles@),
    {
        if !mesh.visible() {
            return Ok(Vec::new());
        }
        let m = mesh.obj.model();
        let v = self.obj.inv_model();
        let ghost pos = self.obj.position;
        let ghost planes = self.clip_planes@;
        let ghost spg = self.sp;
        let ghost mts = mesh.triangles@;
        let mut out: Vec<Triangle> = Vec::new();
        let n = mesh.triangles.len();
        let mut ti: usize = 0;
        while ti < n
            invariant
                *self == *old(self),
                n == mts.len(),
                0 <= ti <= n,
                mts == mesh.triangles@,
                mesh.visible,
                m == obj_model(mesh.obj),
                v == mat_view(obj_model(self.obj)),
                pos == self.obj.position,
                planes == self.clip_planes@,
                spg == self.sp,
                out@ =~= mesh_outputs(pos, planes, m, v, spg, mts.take(ti as int)),
                !mesh_degenerate(pos, planes, m, v, spg, mts.take(ti as int)),
            decreases n - ti,
        {
            let t = mesh.triangles[ti];
            let m_tri = t.mul(&m);
            let dotv = m_tri.normal().dot(
                &Vec3d::from_vec4d(&m_tri.points()[0]).sub(&self.obj.position).normalized(),
            );
            proof {
                reveal(source_dot);
                assert(dotv == source_dot(pos, m, mts[ti as int]));
            }
            let vm_tri = m_tri.mul(&v);
            let mut clipped: Vec<Triangle> = Vec::new();
            clipped.push(vm_tri);
            let ghost init_c = clipped@;
            let np = self.clip_planes.len();
            let mut pi: usize = 0;
            while pi < np
                invariant
                    *self == *old(self),
                    mesh.visible,
                    planes == self.clip_planes@,
                    np == planes.len(),
                    0 <= pi <= np,
                    init_c =~= seq![tri_mul(tri_mul(mts[ti as int], m), v)],
                    clipped@ =~= clip_chain(planes.take(pi as int), init_c),
                decreases np - pi,
            {
                let ghost pg = planes[pi as int];
                let mut temp: Vec<Triangle> = Vec::new();
                let ghost cfull = clipped@;
                while clipped.len() > 0
                    invariant
                        *self == *old(self),
                        planes == self.clip_planes@,
                        np == planes.len(),
                        0 <= pi < np,
                        pg == planes[pi as int],
                        temp@ + clip_pass(pg, clipped@) =~= clip_pass(pg, cfull),
                    decreases clipped@.len(),
                {
                    let ghost cprev = clipped@;
                    let last = match clipped.pop() {
                        Some(x) => x,
                        None => {
                            proof {
                                assert(false);
                            }
                            Triangle::new(
                                Color { r: 0, g: 0, b: 0, a: 0 },
                                crate::math::vec_4d::Vec4d { x: 0, y: 0, z: 0, w: 0 },
                                crate::math::vec_4d::Vec4d { x: 0, y: 0, z: 0, w: 0 },
                                crate::math::vec_4d::Vec4d { x: 0, y: 0, z: 0, w: 0 },
                            )
                        },
                    };
                    let mut clip_result = self.clip_planes[pi].clip(&last);
                    proof {
                        assert(clip_pass(pg, cprev) =~= clip_spec(pg.normal, pg.point, last)
                            + clip_pass(pg, clipped@));
                    }
                    temp.append(&mut clip_result);
                }
                proof {
                    assert(clip_pass(pg, clipped@) =~= Seq::<Triangle>::empty());
                    assert(temp@ =~= clip_pass(pg, cfull));
                    assert(planes.take(pi + 1).drop_last() =~= planes.take(pi as int));
                    assert(clip_chain(planes.take(pi + 1), init_c) =~= clip_pass(
                        pg,
                        clip_chain(planes.take(pi as int), init_c),
                    ));
                }
                clipped = temp;
                pi += 1;
            }
            proof {
                assert(planes.take(np as int) =~= planes);
                assert(clipped@ =~= source_clipped(planes, m, v, mts[ti as int]));
            }
            let ghost srcc = clipped@;
            let ghost fin = |ct: Triangle| finalize_tri(spg, source_dot(pos, m, mts[ti as int]), ct);
            let nc = clipped.len();
            let mut ci: usize = 0;
            while ci < nc
                invariant
                    *self == *old(self),
                    mesh.visible,
                    spg == self.sp,
                    planes == self.clip_planes@,
                    pos == self.obj.position,
                    mts == mesh.triangles@,
                    0 <= ti < n,
                    n == mts.len(),
                    m == obj_model(mesh.obj),
                    v == mat_view(obj_model(self.obj)),
                    dotv == source_dot(pos, m, mts[ti as int]),
                    srcc == clipped@,
                    srcc =~= source_clipped(planes, m, v, mts[ti as int]),
                    nc == srcc.len(),
                    0 <= ci <= nc,
                    fin == (|ct: Triangle| finalize_tri(
                        spg,
                        source_dot(pos, m, mts[ti as int]),
                        ct,
                    )),
                    out@ =~= mesh_outputs(pos, planes, m, v, spg, mts.take(ti as int))
                        + srcc.take(ci as int).map_values(fin),
                    !any_degenerate(spg, srcc.take(ci as int)),
                decreases nc - ci,
            {
                let ct = clipped[ci];
                let pjt = ct.mul(&self.sp);
                let w0 = pjt.points()[0].w();
                let w1 = pjt.points()[1].w();
                let w2 = pjt.points()[2].w();
                if w0 == 0 || w1 == 0 || w2 == 0 {
                    proof {
                        reveal(tri_degenerate);
                        assert(tri_degenerate(spg, ct));
                        lemma_any_degenerate_index(spg, srcc, ci as int);
                        lemma_mesh_degenerate_index(pos, planes, m, v, spg, mts, ti as int);
                    }
                    return Err(ProjectError::DegenerateDepth);
                }
                let amb = shade(ct.color(), dotv);
                let q0 = pjt.points()[0].div(w0);
                let q1 = pjt.points()[1].div(w1);
                let q2 = pjt.points()[2].div(w2);
                let newt = Triangle::new(amb, q0, q1, q2);
                out.push(newt);
                proof {
                    assert(newt == fin(ct)) by {
                        reveal(finalize_tri);
                    }
                    assert(srcc.take(ci + 1).drop_last() =~= srcc.take(ci as int));
                    assert(srcc.take(ci + 1).map_values(fin) =~= srcc.take(
                        ci as int,
                    ).map_values(fin).push(fin(ct)));
                    assert(!tri_degenerate(spg, ct)) by {
                        reveal(tri_degenerate);
                    }
                }
                ci += 1;
            }
            proof {
                assert(srcc.take(nc as int) =~= srcc);
                assert(mts.take(ti + 1).drop_last() =~= mts.take(ti as int));
                assert(mts.take(ti + 1).last() == mts[ti as int]);
                assert(mesh_outputs(pos, planes, m, v, spg, mts.take(ti + 1)) =~= mesh_outputs(
                    pos,
                    planes,
                    m,
                    v,
                    spg,
                    mts.take(ti as int),
                ) + source_outputs(pos, planes, m, v, spg, mts[ti as int]));
                assert(source_outputs(pos, planes, m, v, spg, mts[ti as int]) =~= srcc.map_values(
                    fin,
                ));
            }
            ti += 1;
        }
        proof {
            assert(mts.take(n as int) =~= mts);
        }
        let ghost outg = out@;
        let mut moved = out;
        self.triangles.append(&mut moved);
        let result = copy_triangles(&self.triangles);
        Ok(result)
    }

    /// Stable, back-to-front ordering of the per-frame buffer by the
    /// summed-depth key: keys never decrease, and triangles with equal
    /// keys keep their insertion order (each key class is unchanged as a
    /// subsequence).
    pub fn sorted(&mut self) -> (r: &Vec<Triangle>)
        ensures
            final(self).obj == old(self).obj,
            final(self).clip_planes == old(self).clip_planes,
            final(self).aspect == old(self).aspect,
            final(self).sp == old(self).sp,
            sorted_by_zsum(final(self).triangles@),
            forall|k: int| #[trigger] final(self).triangles@.filter(zsum_is(k)) == old(
                self,
            ).triangles@.filter(zsum_is(k)),
            r == &final(self).triangles,
    {
        let sorted_buf = sort_triangles(&self.triangles);
        self.triangles = sorted_buf;
        &self.triangles
    }
}


impl crate::object::Object for MyCamera {
    open spec fn obj_spec(&self) -> ObjectStruct {
        self.obj
    }

    fn nametag(&self) -> (r: &ObjectNameTag) {
        &self.obj.nametag
    }

    fn transform_matrix(&self) -> (r: &Matrix4x4) {
        &self.obj.transform
    }

    fn position(&self) -> (r: &Vec3d) {
        &self.obj.position
    }

    fn angle(&self) -> (r: &Vec3d) {
        &self.obj.angle
    }

    fn angle_left_up_look_at(&self) -> (r: &Vec3d) {
        &self.obj.angle_left_up_look_at
    }

    fn attached_objects(&self) -> (r: &Vec<crate::object::AttachEntry>) {
        &self.obj.attached_objects
    }
}
} // verus!
