//! The scene graph: an arena of objects addressed by stable handles.
//!
//! Attachments are weak: a parent stores a child's handle and nametag, and
//! never keeps the child alive. A destroyed child leaves a vacant slot;
//! every walk over attachments simply skips handles whose slot is vacant.
//! Attachment must form a directed acyclic graph walked parent to
//! descendant: `attach` refuses a child whose attachment subtree already
//! reaches the parent's nametag.
//!
//! The recursive walks carry an explicit recursion budget of one more than
//! the arena's size; since attachment keeps the graph acyclic, no walk can
//! exhaust it.

use crate::camera::MyCamera;
use crate::math::angle::Angle;
use crate::math::matrix4x4::{
    col_w, col_x, col_y, col_z, mat_mul, mat_rotation_around_vec, mat_rotation_x, mat_rotation_y,
    mat_rotation_z, mat_scale, mat_translation, Matrix4x4,
};
use crate::math::vec_3d::{add3, neg3, norm3, scale3, sub3, Vec3d};
use crate::object::{attach_entries_wf, AttachEntry, Cube, ObjectNameTag, ObjectStruct};
use vstd::prelude::*;

verus! {

/// One inhabitant of the scene: a bare positional object, a mesh, or a
/// camera. Further kinds of objects extend this enumeration.
pub enum SceneEntry {
    Plain(ObjectStruct),
    Cube(Cube),
    Camera(MyCamera),
}

/// The positional state every entry carries.
pub open spec fn entry_core(e: SceneEntry) -> ObjectStruct {
    match e {
        SceneEntry::Plain(o) => o,
        SceneEntry::Cube(c) => c.obj,
        SceneEntry::Camera(c) => c.obj,
    }
}

/// The same entry with its positional state replaced.
pub open spec fn with_core(e: SceneEntry, c: ObjectStruct) -> SceneEntry {
    match e {
        SceneEntry::Plain(_) => SceneEntry::Plain(c),
        SceneEntry::Cube(cb) => SceneEntry::Cube(Cube { obj: c, ..cb }),
        SceneEntry::Camera(cm) => SceneEntry::Camera(MyCamera { obj: c, ..cm }),
    }
}

impl SceneEntry {
    /// The positional state.
    pub fn obj(&self) -> (r: &ObjectStruct)
        ensures
            r == &entry_core(*self),
    {
        match self {
            SceneEntry::Plain(o) => o,
            SceneEntry::Cube(c) => &c.obj,
            SceneEntry::Camera(c) => &c.obj,
        }
    }

    /// Mutable access to the positional state; the rest of the entry is
    /// untouched.
    pub fn obj_mut(&mut self) -> (r: &mut ObjectStruct)
        ensures
            *r == entry_core(*old(self)),
            *final(self) == with_core(*old(self), *final(r)),
    {
        match self {
            SceneEntry::Plain(o) => o,
            SceneEntry::Cube(c) => &mut c.obj,
            SceneEntry::Camera(c) => &mut c.obj,
        }
    }
}

/// The handle addresses a live (not destroyed) entry.
pub open spec fn live(slots: Seq<Option<SceneEntry>>, h: int) -> bool {
    0 <= h < slots.len() && slots[h] is Some
}

/// The positional state behind a live handle.
pub open spec fn core_at(slots: Seq<Option<SceneEntry>>, h: int) -> ObjectStruct {
    entry_core(slots[h]->Some_0)
}

/// The child handles of an object, in attachment order.
pub open spec fn kid_handles(c: ObjectStruct) -> Seq<usize> {
    c.attached_objects@.map_values(|e: AttachEntry| e.handle)
}

/// The arena with the positional state behind `h` replaced.
pub open spec fn set_core(slots: Seq<Option<SceneEntry>>, h: int, c: ObjectStruct) -> Seq<
    Option<SceneEntry>,
> {
    slots.update(h, Some(with_core(slots[h]->Some_0, c)))
}

/// The arena after translating the object at `h` by `dv` and, recursively,
/// every live attached child. A vacant handle leaves the arena unchanged:
/// dead attachments are skipped.
pub open spec fn sp_translate(
    slots: Seq<Option<SceneEntry>>,
    h: int,
    dv: Vec3d,
    fuel: nat,
) -> Seq<Option<SceneEntry>>
    decreases fuel, 0int,
{
    if fuel == 0 || !live(slots, h) {
        slots
    } else {
        let c = core_at(slots, h);
        let c2 = ObjectStruct { position: add3(c.position, dv), ..c };
        sp_translate_kids(set_core(slots, h, c2), kid_handles(c), dv, (fuel - 1) as nat)
    }
}

/// Translation folded over a list of child handles, first to last.
pub open spec fn sp_translate_kids(
    slots: Seq<Option<SceneEntry>>,
    hs: Seq<usize>,
    dv: Vec3d,
    fuel: nat,
) -> Seq<Option<SceneEntry>>
    decreases fuel, hs.len(),
{
    if hs.len() == 0 {
        slots
    } else {
        sp_translate_kids(sp_translate(slots, hs.first() as int, dv, fuel), hs.drop_first(), dv, fuel)
    }
}

/// The positional state after re-expressing the transform relative to the
/// pivot `point`, applying `m` in that frame, and folding the result back
/// into the object's own position and transform.
pub open spec fn trp_core(c: ObjectStruct, point: Vec3d, m: Matrix4x4) -> ObjectStruct {
    let t1 = mat_mul(mat_translation(sub3(c.position, point)), m);
    let t2 = mat_mul(m, t1);
    let p2 = add3(col_w(t2), point);
    let t3 = mat_mul(mat_translation(neg3(col_w(t2))), t2);
    ObjectStruct { position: p2, transform: t3, ..c }
}

/// The arena after rotating the object at `h` (and recursively its live
/// attached children) around the external pivot `point` by the matrix `m`.
pub open spec fn sp_trp(
    slots: Seq<Option<SceneEntry>>,
    h: int,
    point: Vec3d,
    m: Matrix4x4,
    fuel: nat,
) -> Seq<Option<SceneEntry>>
    decreases fuel, 0int,
{
    if fuel == 0 || !live(slots, h) {
        slots
    } else {
        let c = core_at(slots, h);
        sp_trp_kids(set_core(slots, h, trp_core(c, point, m)), kid_handles(c), point, m, (fuel
            - 1) as nat)
    }
}

/// Pivoted transformation folded over a list of child handles.
pub open spec fn sp_trp_kids(
    slots: Seq<Option<SceneEntry>>,
    hs: Seq<usize>,
    point: Vec3d,
    m: Matrix4x4,
    fuel: nat,
) -> Seq<Option<SceneEntry>>
    decreases fuel, hs.len(),
{
    if hs.len() == 0 {
        slots
    } else {
        sp_trp_kids(sp_trp(slots, hs.first() as int, point, m, fuel), hs.drop_first(), point, m, fuel)
    }
}

/// The arena after composing `m` onto the transform of the object at `h`
/// and rotating every live attached child around the object's position.
pub open spec fn sp_transform(
    slots: Seq<Option<SceneEntry>>,
    h: int,
    m: Matrix4x4,
    fuel: nat,
) -> Seq<Option<SceneEntry>> {
    if fuel == 0 || !live(slots, h) {
        slots
    } else {
        let c = core_at(slots, h);
        let c2 = ObjectStruct { transform: mat_mul(c.transform, m), ..c };
        sp_trp_kids(set_core(slots, h, c2), kid_handles(c), c.position, m, (fuel - 1) as nat)
    }
}

/// The arena with a vector accumulated onto the Euler-angle tracker of the
/// object at `h`.
pub open spec fn sp_add_angle(slots: Seq<Option<SceneEntry>>, h: int, d: Vec3d) -> Seq<
    Option<SceneEntry>,
> {
    if !live(slots, h) {
        slots
    } else {
        let c = core_at(slots, h);
        set_core(slots, h, ObjectStruct { angle: add3(c.angle, d), ..c })
    }
}

/// The arena with a vector accumulated onto the local-roll tracker of the
/// object at `h`.
pub open spec fn sp_add_angle_lul(slots: Seq<Option<SceneEntry>>, h: int, d: Vec3d) -> Seq<
    Option<SceneEntry>,
> {
    if !live(slots, h) {
        slots
    } else {
        let c = core_at(slots, h);
        set_core(
            slots,
            h,
            ObjectStruct { angle_left_up_look_at: add3(c.angle_left_up_look_at, d), ..c },
        )
    }
}

/// The nametag `tag` occurs as an attachment key somewhere in the
/// attachment subtree of the object at `h` (dead children are skipped).
pub open spec fn reaches_tag(
    slots: Seq<Option<SceneEntry>>,
    h: int,
    tag: Seq<char>,
    fuel: nat,
) -> bool
    decreases fuel, 0int,
{
    if fuel == 0 || !live(slots, h) {
        false
    } else {
        reaches_kids(slots, core_at(slots, h).attached_objects@, tag, (fuel - 1) as nat)
    }
}

/// The tag occurs among these attachment entries, or within the subtree of
/// one of their live children.
pub open spec fn reaches_kids(
    slots: Seq<Option<SceneEntry>>,
    entries: Seq<AttachEntry>,
    tag: Seq<char>,
    fuel: nat,
) -> bool
    decreases fuel, entries.len(),
{
    if entries.len() == 0 {
        false
    } else {
        let e = entries.first();
        e.tag.0@ == tag || reaches_tag(slots, e.handle as int, tag, fuel) || reaches_kids(
            slots,
            entries.drop_first(),
            tag,
            fuel,
        )
    }
}

/// The first index whose entry carries the tag text, or -1.
pub open spec fn find_tag(entries: Seq<AttachEntry>, tag: Seq<char>) -> int
    decreases entries.len(),
{
    if entries.len() == 0 {
        -1
    } else if entries.first().tag.0@ == tag {
        0
    } else {
        let r = find_tag(entries.drop_first(), tag);
        if r == -1 {
            -1
        } else {
            r + 1
        }
    }
}

/// Why an attachment was refused.
#[derive(Clone, Copy, Debug, PartialEq, Eq, Structural)]
pub enum AttachError {
    /// The object and the prospective child carry the same nametag.
    SelfAttach,
    /// The prospective child's attachment subtree already reaches the
    /// object's nametag, so attaching would close a cycle.
    CycleDetected,
}

/// The arena of scene objects. Destroying an object leaves its slot
/// permanently vacant, so handles are never reused and a stale handle is
/// reliably observed as dead.
pub struct Scene {
    pub slots: Vec<Option<SceneEntry>>,
}

impl Scene {
    /// An empty scene.
    pub fn new() -> (r: Scene)
        ensures
            r.slots@ =~= Seq::<Option<SceneEntry>>::empty(),
    {
        Scene { slots: Vec::new() }
    }

    /// Add an entry; its handle is returned.
    pub fn add(&mut self, e: SceneEntry) -> (r: usize)
        ensures
            final(self).slots@ =~= old(self).slots@.push(Some(e)),
            r == old(self).slots@.len(),
            live(final(self).slots@, r as int),
    {
        let r = self.slots.len();
        self.slots.push(Some(e));
        r
    }

    /// Destroy the object behind a handle: its slot becomes vacant and
    /// every attachment pointing at it is from now on skipped.
    pub fn destroy(&mut self, h: usize)
        requires
            h < old(self).slots@.len(),
        ensures
            final(self).slots@ =~= old(self).slots@.update(h as int, None),
    {
        let slot = &mut self.slots[h];
        *slot = None;
    }

    /// Whether the handle addresses a live object.
    pub fn is_live(&self, h: usize) -> (r: bool)
        ensures
            r == live(self.slots@, h as int),
    {
        h < self.slots.len() && self.slots[h].is_some()
    }

    /// The positional state behind a live handle.
    pub fn core_of(&self, h: usize) -> (r: &ObjectStruct)
        requires
            live(self.slots@, h as int),
        ensures
            r == &core_at(self.slots@, h as int),
    {
        self.slots[h].as_ref().unwrap().obj()
    }
}


impl Scene {
    /// The child handles of a live object, in attachment order.
    fn kid_handles_of(&self, h: usize) -> (r: Vec<usize>)
        requires
            live(self.slots@, h as int),
        ensures
            r@ =~= kid_handles(core_at(self.slots@, h as int)),
    {
        let obj = self.slots[h].as_ref().unwrap().obj();
        let n = obj.attached_objects.len();
        let mut r: Vec<usize> = Vec::new();
        let mut i: usize = 0;
        while i < n
            invariant
                n == obj.attached_objects@.len(),
                0 <= i <= n,
                r@ =~= obj.attached_objects@.take(i as int).map_values(
                    |e: AttachEntry| e.handle,
                ),
            decreases n - i,
        {
            r.push(obj.attached_objects[i].handle);
            proof {
                assert(obj.attached_objects@.take(i + 1).drop_last() =~= obj.attached_objects@.take(
                    i as int,
                ));
            }
            i += 1;
        }
        proof {
            assert(obj.attached_objects@.take(n as int) =~= obj.attached_objects@);
        }
        r
    }

    /// One fuel-bounded step of the recursive translation.
    fn translate_rec(&mut self, h: usize, dv: &Vec3d, fuel: usize)
        ensures
            final(self).slots@ == sp_translate(old(self).slots@, h as int, *dv, fuel as nat),
        decreases fuel,
    {
        if fuel == 0 {
            return ;
        }
        if h >= self.slots.len() {
            return ;
        }
        if !self.slots[h].is_some() {
            return ;
        }
        let ghost slots0 = self.slots@;
        let hs = self.kid_handles_of(h);
        {
            let entry = &mut self.slots[h];
            match entry {
                Some(e) => {
                    let c = e.obj_mut();
                    c.position = c.position.add(dv);
                },
                None => {},
            }
        }
        proof {
            let c0 = core_at(slots0, h as int);
            assert(self.slots@ =~= set_core(
                slots0,
                h as int,
                ObjectStruct { position: add3(c0.position, *dv), ..c0 },
            ));
        }
        let ghost slots1 = self.slots@;
        proof {
            assert(hs@.skip(0) =~= hs@);
        }
        let n = hs.len();
        let mut i: usize = 0;
        while i < n
            invariant
                n == hs@.len(),
                0 <= i <= n,
                fuel >= 1,
                sp_translate_kids(self.slots@, hs@.skip(i as int), *dv, (fuel - 1) as nat)
                    == sp_translate_kids(slots1, hs@, *dv, (fuel - 1) as nat),
            decreases n - i,
        {
            proof {
                assert(hs@.skip(i as int).drop_first() =~= hs@.skip(i + 1));
            }
            let hk = hs[i];
            self.translate_rec(hk, dv, fuel - 1);
            i += 1;
        }
        proof {
            assert(hs@.skip(n as int) =~= Seq::<usize>::empty());
            assert(hs@ =~= kid_handles(core_at(slots0, h as int)));
            assert(hs@.skip(0) =~= hs@);
        }
    }

    /// Add `dv` to the object's position and, recursively, to every live
    /// attached child; dead attachments are skipped.
    pub fn translate(&mut self, h: usize, dv: &Vec3d)
        requires
            old(self).slots@.len() < usize::MAX,
        ensures
            final(self).slots@ == sp_translate(
                old(self).slots@,
                h as int,
                *dv,
                old(self).slots@.len() + 1,
            ),
    {
        let fuel = self.slots.len() + 1;
        self.translate_rec(h, dv, fuel);
    }

    /// One fuel-bounded step of the recursive pivoted transformation.
    fn trp_rec(&mut self, h: usize, point: &Vec3d, m: &Matrix4x4, fuel: usize)
        ensures
            final(self).slots@ == sp_trp(old(self).slots@, h as int, *point, *m, fuel as nat),
        decreases fuel,
    {
        if fuel == 0 {
            return ;
        }
        if h >= self.slots.len() {
            return ;
        }
        if !self.slots[h].is_some() {
            return ;
        }
        let ghost slots0 = self.slots@;
        let hs = self.kid_handles_of(h);
        {
            let entry = &mut self.slots[h];
            match entry {
                Some(e) => {
                    let c = e.obj_mut();
                    let t1 = Matrix4x4::translation(&c.position.sub(point)).mul(m);
                    let t2 = m.mul(&t1);
                    let p2 = t2.w().add(point);
                    let t3 = Matrix4x4::translation(&t2.w().neg()).mul(&t2);
                    c.position = p2;
                    c.transform = t3;
                },
                None => {},
            }
        }
        proof {
            let c0 = core_at(slots0, h as int);
            assert(self.slots@ =~= set_core(slots0, h as int, trp_core(c0, *point, *m)));
        }
        let ghost slots1 = self.slots@;
        proof {
            assert(hs@.skip(0) =~= hs@);
        }
        let n = hs.len();
        let mut i: usize = 0;
        while i < n
            invariant
                n == hs@.len(),
                0 <= i <= n,
                fuel >= 1,
                sp_trp_kids(self.slots@, hs@.skip(i as int), *point, *m, (fuel - 1) as nat)
                    == sp_trp_kids(slots1, hs@, *point, *m, (fuel - 1) as nat),
            decreases n - i,
        {
            proof {
                assert(hs@.skip(i as int).drop_first() =~= hs@.skip(i + 1));
            }
            let hk = hs[i];
            self.trp_rec(hk, point, m, fuel - 1);
            i += 1;
        }
        proof {
            assert(hs@.skip(n as int) =~= Seq::<usize>::empty());
            assert(hs@ =~= kid_handles(core_at(slots0, h as int)));
            assert(hs@.skip(0) =~= hs@);
        }
    }

    /// Re-express the object's transform relative to the external pivot
    /// `point`, apply `m` in that pivoted frame, and fold the result back;
    /// then propagate the same pivot and matrix to every live attached
    /// child.
    pub fn transform_relative_point(&mut self, h: usize, point: &Vec3d, m: &Matrix4x4)
        requires
            old(self).slots@.len() < usize::MAX,
        ensures
            final(self).slots@ == sp_trp(
                old(self).slots@,
                h as int,
                *point,
                *m,
                old(self).slots@.len() + 1,
            ),
    {
        let fuel = self.slots.len() + 1;
        self.trp_rec(h, point, m, fuel);
    }

    /// Compose `m` onto the object's local transform, and rotate every
    /// live attached child around the object's own position.
    pub fn transform(&mut self, h: usize, m: &Matrix4x4)
        requires
            old(self).slots@.len() < usize::MAX,
        ensures
            final(self).slots@ == sp_transform(
                old(self).slots@,
                h as int,
                *m,
                old(self).slots@.len() + 1,
            ),
    {
        let fuel = self.slots.len() + 1;
        if h >= self.slots.len() {
            return ;
        }
        if !self.slots[h].is_some() {
            return ;
        }
        let ghost slots0 = self.slots@;
        let hs = self.kid_handles_of(h);
        let pos = self.slots[h].as_ref().unwrap().obj().position;
        {
            let entry = &mut self.slots[h];
            match entry {
                Some(e) => {
                    let c = e.obj_mut();
                    c.transform = c.transform.mul(m);
                },
                None => {},
            }
        }
        proof {
            let c0 = core_at(slots0, h as int);
            assert(self.slots@ =~= set_core(
                slots0,
                h as int,
                ObjectStruct { transform: mat_mul(c0.transform, *m), ..c0 },
            ));
        }
        let ghost slots1 = self.slots@;
        proof {
            assert(hs@.skip(0) =~= hs@);
        }
        let n = hs.len();
        let mut i: usize = 0;
        while i < n
            invariant
                n == hs@.len(),
                0 <= i <= n,
                fuel >= 1,
                fuel == slots0.len() + 1,
                pos == core_at(slots0, h as int).position,
                sp_trp_kids(self.slots@, hs@.skip(i as int), pos, *m, (fuel - 1) as nat)
                    == sp_trp_kids(slots1, hs@, pos, *m, (fuel - 1) as nat),
            decreases n - i,
        {
            proof {
                assert(hs@.skip(i as int).drop_first() =~= hs@.skip(i + 1));
            }
            let hk = hs[i];
            self.trp_rec(hk, &pos, m, fuel - 1);
            i += 1;
        }
        proof {
            assert(hs@.skip(n as int) =~= Seq::<usize>::empty());
            assert(hs@ =~= kid_handles(core_at(slots0, h as int)));
            assert(hs@.skip(0) =~= hs@);
        }
    }
}


/// A matching entry at index `k`, with no earlier match, fixes `find_tag`.
proof fn lemma_find_tag_at(entries: Seq<AttachEntry>, tag: Seq<char>, k: int)
    requires
        0 <= k < entries.len(),
        forall|j: int| 0 <= j < k ==> entries[j].tag.0@ != tag,
        entries[k].tag.0@ == tag,
    ensures
        find_tag(entries, tag) == k,
    decreases k,
{
    if k > 0 {
        lemma_find_tag_at(entries.drop_first(), tag, k - 1);
    }
}

/// Without a matching entry, `find_tag` yields -1.
proof fn lemma_find_tag_none(entries: Seq<AttachEntry>, tag: Seq<char>)
    requires
        forall|j: int| 0 <= j < entries.len() ==> entries[j].tag.0@ != tag,
    ensures
        find_tag(entries, tag) == -1,
    decreases entries.len(),
{
    if entries.len() > 0 {
        lemma_find_tag_none(entries.drop_first(), tag);
    }
}

/// An attachment entry carrying the tag makes the subtree reach it.
pub proof fn lemma_reaches_kids_at(
    slots: Seq<Option<SceneEntry>>,
    entries: Seq<AttachEntry>,
    tag: Seq<char>,
    fuel: nat,
    k: int,
)
    requires
        0 <= k < entries.len(),
        entries[k].tag.0@ == tag,
    ensures
        reaches_kids(slots, entries, tag, fuel),
    decreases k,
{
    if k > 0 {
        lemma_reaches_kids_at(slots, entries.drop_first(), tag, fuel, k - 1);
    }
}

/// The first entry of a tag among a list of attachment entries.
fn find_entry(entries: &Vec<AttachEntry>, tag: &ObjectNameTag) -> (r: Option<usize>)
    ensures
        ({
            let k = find_tag(entries@, tag.0@);
            &&& (r matches Some(j) ==> k == j && 0 <= k < entries@.len() && entries@[k].tag.0@
                == tag.0@)
            &&& (r is None ==> k == -1)
        }),
{
    let n = entries.len();
    let mut i: usize = 0;
    while i < n
        invariant
            n == entries@.len(),
            0 <= i <= n,
            forall|j: int| 0 <= j < i ==> entries@[j].tag.0@ != tag.0@,
        decreases n - i,
    {
        if entries[i].tag == *tag {
            proof {
                lemma_find_tag_at(entries@, tag.0@, i as int);
            }
            return Some(i);
        }
        i += 1;
    }
    proof {
        lemma_find_tag_none(entries@, tag.0@);
    }
    None
}

impl Scene {
    /// One fuel-bounded step of the attachment-subtree walk.
    fn check_rec(&self, h: usize, tag: &ObjectNameTag, fuel: usize) -> (r: bool)
        ensures
            r == reaches_tag(self.slots@, h as int, tag.0@, fuel as nat),
        decreases fuel,
    {
        if fuel == 0 {
            return false;
        }
        if h >= self.slots.len() {
            return false;
        }
        if !self.slots[h].is_some() {
            return false;
        }
        let obj = self.slots[h].as_ref().unwrap().obj();
        let ghost kids = obj.attached_objects@;
        let n = obj.attached_objects.len();
        proof {
            assert(kids.skip(0) =~= kids);
        }
        let mut i: usize = 0;
        while i < n
            invariant
                n == kids.len(),
                kids == core_at(self.slots@, h as int).attached_objects@,
                obj == &core_at(self.slots@, h as int),
                live(self.slots@, h as int),
                fuel >= 1,
                0 <= i <= n,
                reaches_kids(self.slots@, kids.skip(i as int), tag.0@, (fuel - 1) as nat)
                    == reaches_kids(self.slots@, kids, tag.0@, (fuel - 1) as nat),
            decreases n - i,
        {
            proof {
                assert(kids.skip(i as int).drop_first() =~= kids.skip(i + 1));
            }
            let e = &obj.attached_objects[i];
            if e.tag == *tag {
                return true;
            }
            if self.check_rec(e.handle, tag, fuel - 1) {
                return true;
            }
            i += 1;
        }
        proof {
            assert(kids.skip(n as int) =~= Seq::<AttachEntry>::empty());
        }
        false
    }

    /// Whether the tag occurs as an attachment key anywhere in the
    /// object's attachment subtree, dead children skipped.
    pub fn check_if_attached(&self, h: usize, tag: &ObjectNameTag) -> (r: bool)
        requires
            self.slots@.len() < usize::MAX,
        ensures
            r == reaches_tag(self.slots@, h as int, tag.0@, self.slots@.len() + 1),
    {
        let fuel = self.slots.len() + 1;
        self.check_rec(h, tag, fuel)
    }

    /// The live child attached under the tag, if any: a vacant slot means
    /// the child is gone and the attachment silently yields nothing.
    pub fn attached(&self, h: usize, tag: &ObjectNameTag) -> (r: Option<usize>)
        requires
            live(self.slots@, h as int),
        ensures
            ({
                let kids = core_at(self.slots@, h as int).attached_objects@;
                let k = find_tag(kids, tag.0@);
                r == if k >= 0 && live(self.slots@, kids[k].handle as int) {
                    Option::<usize>::Some(kids[k].handle)
                } else {
                    Option::<usize>::None
                }
            }),
    {
        let obj = self.slots[h].as_ref().unwrap().obj();
        match find_entry(&obj.attached_objects, tag) {
            Some(j) => {
                let hk = obj.attached_objects[j].handle;
                if self.is_live(hk) {
                    Some(hk)
                } else {
                    None
                }
            },
            None => None,
        }
    }

    /// Store a weak attachment from `parent` to `child`, keyed by the
    /// child's nametag (replacing any entry under the same tag). The call
    /// is refused when the two nametags coincide, or when the child's
    /// attachment subtree already reaches the parent's nametag and the
    /// attachment would close a cycle.
    pub fn attach(&mut self, parent: usize, child: usize) -> (r: Result<(), AttachError>)
        requires
            live(old(self).slots@, parent as int),
            live(old(self).slots@, child as int),
            old(self).slots@.len() < usize::MAX,
        ensures
            ({
                let slots = old(self).slots@;
                let ptag = core_at(slots, parent as int).nametag.0@;
                let ctag = core_at(slots, child as int).nametag.0@;
                let kids0 = core_at(slots, parent as int).attached_objects@;
                &&& (ptag == ctag ==> r == Result::<(), AttachError>::Err(AttachError::SelfAttach)
                    && final(self).slots@ == slots)
                &&& (ptag != ctag && reaches_tag(slots, child as int, ptag, slots.len() + 1)
                    ==> r == Result::<(), AttachError>::Err(AttachError::CycleDetected)
                    && final(self).slots@ == slots)
                &&& (ptag != ctag && !reaches_tag(slots, child as int, ptag, slots.len() + 1) ==> {
                    let k = find_tag(kids0, ctag);
                    let c0 = core_at(slots, parent as int);
                    let c1 = core_at(final(self).slots@, parent as int);
                    &&& r == Result::<(), AttachError>::Ok(())
                    &&& final(self).slots@.len() == slots.len()
                    &&& (forall|q: int|
                        0 <= q < slots.len() && q != parent ==> final(self).slots@[q] == slots[q])
                    &&& live(final(self).slots@, parent as int)
                    &&& final(self).slots@[parent as int]->Some_0 == with_core(
                        slots[parent as int]->Some_0,
                        c1,
                    )
                    &&& c1 == (ObjectStruct { attached_objects: c1.attached_objects, ..c0 })
                    &&& (k == -1 ==> c1.attached_objects@.len() == kids0.len() + 1
                        && c1.attached_objects@.drop_last() == kids0
                        && c1.attached_objects@.last().tag.0@ == ctag
                        && c1.attached_objects@.last().handle == child)
                    &&& (k >= 0 ==> c1.attached_objects@.len() == kids0.len() && (forall|q: int|
                        0 <= q < kids0.len() && q != k ==> c1.attached_objects@[q] == kids0[q])
                        && c1.attached_objects@[k].tag.0@ == ctag
                        && c1.attached_objects@[k].handle == child)
                })
            }),
    {
        let ghost slots = self.slots@;
        let tags_equal = {
            let pt = self.slots[parent].as_ref().unwrap().obj();
            let ct = self.slots[child].as_ref().unwrap().obj();
            pt.nametag == ct.nametag
        };
        if tags_equal {
            return Err(AttachError::SelfAttach);
        }
        let ptag_owned = self.slots[parent].as_ref().unwrap().obj().nametag.clone_tag();
        let fuel = self.slots.len() + 1;
        if self.check_rec(child, &ptag_owned, fuel) {
            return Err(AttachError::CycleDetected);
        }
        let ctag_owned = self.slots[child].as_ref().unwrap().obj().nametag.clone_tag();
        let idx = find_entry(&self.slots[parent].as_ref().unwrap().obj().attached_objects, &ctag_owned);
        let new_entry = AttachEntry { tag: ctag_owned, handle: child };
        {
            let entry = &mut self.slots[parent];
            match entry {
                Some(e) => {
                    let c = e.obj_mut();
                    match idx {
                        Some(j) => {
                            let slot = &mut c.attached_objects[j];
                            *slot = new_entry;
                        },
                        None => {
                            c.attached_objects.push(new_entry);
                        },
                    }
                },
                None => {},
            }
        }
        proof {
            let kids0 = core_at(slots, parent as int).attached_objects@;
            let c1 = core_at(self.slots@, parent as int);
            if find_tag(kids0, core_at(slots, child as int).nametag.0@) == -1 {
                assert(c1.attached_objects@.drop_last() =~= kids0);
            }
        }
        Ok(())
    }

    /// Remove the attachment stored under the tag; nothing happens when no
    /// such attachment exists.
    pub fn unattach(&mut self, h: usize, tag: &ObjectNameTag)
        requires
            live(old(self).slots@, h as int),
        ensures
            ({
                let slots = old(self).slots@;
                let kids0 = core_at(slots, h as int).attached_objects@;
                let k = find_tag(kids0, tag.0@);
                &&& (k == -1 ==> final(self).slots@ == slots)
                &&& (k >= 0 ==> {
                    let c0 = core_at(slots, h as int);
                    let c1 = core_at(final(self).slots@, h as int);
                    &&& final(self).slots@.len() == slots.len()
                    &&& (forall|q: int|
                        0 <= q < slots.len() && q != h ==> final(self).slots@[q] == slots[q])
                    &&& live(final(self).slots@, h as int)
                    &&& final(self).slots@[h as int]->Some_0 == with_core(
                        slots[h as int]->Some_0,
                        c1,
                    )
                    &&& c1 == (ObjectStruct { attached_objects: c1.attached_objects, ..c0 })
                    &&& c1.attached_objects@ == kids0.remove(k)
                })
            }),
    {
        let idx = find_entry(&self.slots[h].as_ref().unwrap().obj().attached_objects, tag);
        match idx {
            Some(j) => {
                let entry = &mut self.slots[h];
                match entry {
                    Some(e) => {
                        let c = e.obj_mut();
                        c.attached_objects.remove(j);
                    },
                    None => {},
                }
                proof {
                    assert(final(self).slots@ == self.slots@);
                }
            },
            None => {
                proof {
                    assert(self.slots@ =~= old(self).slots@);
                }
            },
        }
    }
}


impl Scene {
    /// Accumulate a delta onto the Euler-angle tracker.
    fn add_angle(&mut self, h: usize, d: &Vec3d)
        ensures
            final(self).slots@ == sp_add_angle(old(self).slots@, h as int, *d),
    {
        if h >= self.slots.len() {
            return ;
        }
        if !self.slots[h].is_some() {
            return ;
        }
        let ghost slots0 = self.slots@;
        {
            let entry = &mut self.slots[h];
            match entry {
                Some(e) => {
                    let c = e.obj_mut();
                    c.angle = c.angle.add(d);
                },
                None => {},
            }
        }
        proof {
            let c0 = core_at(slots0, h as int);
            assert(self.slots@ =~= set_core(
                slots0,
                h as int,
                ObjectStruct { angle: add3(c0.angle, *d), ..c0 },
            ));
        }
    }

    /// Accumulate a delta onto the local-roll tracker.
    fn add_angle_lul(&mut self, h: usize, d: &Vec3d)
        ensures
            final(self).slots@ == sp_add_angle_lul(old(self).slots@, h as int, *d),
    {
        if h >= self.slots.len() {
            return ;
        }
        if !self.slots[h].is_some() {
            return ;
        }
        let ghost slots0 = self.slots@;
        {
            let entry = &mut self.slots[h];
            match entry {
                Some(e) => {
                    let c = e.obj_mut();
                    c.angle_left_up_look_at = c.angle_left_up_look_at.add(d);
                },
                None => {},
            }
        }
        proof {
            let c0 = core_at(slots0, h as int);
            assert(self.slots@ =~= set_core(
                slots0,
                h as int,
                ObjectStruct { angle_left_up_look_at: add3(c0.angle_left_up_look_at, *d), ..c0 },
            ));
        }
    }

    /// Scale the object (and children, around the object's position).
    pub fn scale(&mut self, h: usize, s: &Vec3d)
        requires
            old(self).slots@.len() < usize::MAX,
        ensures
            final(self).slots@ == sp_transform(
                old(self).slots@,
                h as int,
                mat_scale(*s),
                old(self).slots@.len() + 1,
            ),
    {
        let m = Matrix4x4::scale(s);
        self.transform(h, &m);
    }

    /// Rotate intrinsically about the three axes, in the fixed order X,
    /// then Y, then Z, accumulating the Euler-angle tracker.
    pub fn rotate(&mut self, h: usize, rx: &Angle, ry: &Angle, rz: &Angle)
        requires
            old(self).slots@.len() < usize::MAX,
        ensures
            final(self).slots@ == sp_transform(
                sp_add_angle(old(self).slots@, h as int, Vec3d { x: rx.rad, y: ry.rad, z: rz.rad }),
                h as int,
                mat_mul(mat_mul(mat_rotation_x(*rx), mat_rotation_y(*ry)), mat_rotation_z(*rz)),
                old(self).slots@.len() + 1,
            ),
    {
        self.add_angle(h, &Vec3d::new(rx.rad, ry.rad, rz.rad));
        let m = Matrix4x4::rotation(rx, ry, rz);
        self.transform(h, &m);
    }

    /// Rotate about an arbitrary axis through the object's position.
    pub fn rotate_around_vec(&mut self, h: usize, v: &Vec3d, rv: &Angle)
        requires
            old(self).slots@.len() < usize::MAX,
        ensures
            final(self).slots@ == sp_transform(
                old(self).slots@,
                h as int,
                mat_rotation_around_vec(*v, *rv),
                old(self).slots@.len() + 1,
            ),
    {
        let m = Matrix4x4::rotation_around_vec(v, rv);
        self.transform(h, &m);
    }

    /// Rotate about the three axes around an external pivot point,
    /// accumulating the Euler-angle tracker.
    pub fn rotate_relative_point(
        &mut self,
        h: usize,
        s: &Vec3d,
        rx: &Angle,
        ry: &Angle,
        rz: &Angle,
    )
        requires
            old(self).slots@.len() < usize::MAX,
        ensures
            final(self).slots@ == sp_trp(
                sp_add_angle(old(self).slots@, h as int, Vec3d { x: rx.rad, y: ry.rad, z: rz.rad }),
                h as int,
                *s,
                mat_mul(mat_mul(mat_rotation_x(*rx), mat_rotation_y(*ry)), mat_rotation_z(*rz)),
                old(self).slots@.len() + 1,
            ),
    {
        self.add_angle(h, &Vec3d::new(rx.rad, ry.rad, rz.rad));
        let m = Matrix4x4::rotation(rx, ry, rz);
        self.transform_relative_point(h, s, &m);
    }

    /// Rotate about an arbitrary axis around an external pivot point.
    pub fn rotate_relative_point_around_vec(&mut self, h: usize, s: &Vec3d, v: &Vec3d, r: &Angle)
        requires
            old(self).slots@.len() < usize::MAX,
        ensures
            final(self).slots@ == sp_trp(
                old(self).slots@,
                h as int,
                *s,
                mat_rotation_around_vec(*v, *r),
                old(self).slots@.len() + 1,
            ),
    {
        let m = Matrix4x4::rotation_around_vec(v, r);
        self.transform_relative_point(h, s, &m);
    }

    /// Roll about the object's own left axis, accumulating the roll
    /// tracker.
    pub fn rotate_left(&mut self, h: usize, rl: &Angle)
        requires
            old(self).slots@.len() < usize::MAX,
        ensures
            !live(old(self).slots@, h as int) ==> final(self).slots@ == old(self).slots@,
            live(old(self).slots@, h as int) ==> final(self).slots@ == sp_transform(
                sp_add_angle_lul(old(self).slots@, h as int, Vec3d { x: rl.rad, y: 0, z: 0 }),
                h as int,
                mat_rotation_around_vec(
                    norm3(col_x(core_at(old(self).slots@, h as int).transform)),
                    *rl,
                ),
                old(self).slots@.len() + 1,
            ),
    {
        if !self.is_live(h) {
            return ;
        }
        self.add_angle_lul(h, &Vec3d::new(rl.rad, 0, 0));
        let axis = self.core_of(h).left();
        let m = Matrix4x4::rotation_around_vec(&axis, rl);
        self.transform(h, &m);
    }

    /// Roll about the object's own up axis, accumulating the roll tracker.
    pub fn rotate_up(&mut self, h: usize, ru: &Angle)
        requires
            old(self).slots@.len() < usize::MAX,
        ensures
            !live(old(self).slots@, h as int) ==> final(self).slots@ == old(self).slots@,
            live(old(self).slots@, h as int) ==> final(self).slots@ == sp_transform(
                sp_add_angle_lul(old(self).slots@, h as int, Vec3d { x: 0, y: ru.rad, z: 0 }),
                h as int,
                mat_rotation_around_vec(
                    norm3(col_y(core_at(old(self).slots@, h as int).transform)),
                    *ru,
                ),
                old(self).slots@.len() + 1,
            ),
    {
        if !self.is_live(h) {
            return ;
        }
        self.add_angle_lul(h, &Vec3d::new(0, ru.rad, 0));
        let axis = self.core_of(h).up();
        let m = Matrix4x4::rotation_around_vec(&axis, ru);
        self.transform(h, &m);
    }

    /// Roll about the object's own forward axis, accumulating the roll
    /// tracker.
    pub fn rotate_look_at(&mut self, h: usize, rla: &Angle)
        requires
            old(self).slots@.len() < usize::MAX,
        ensures
            !live(old(self).slots@, h as int) ==> final(self).slots@ == old(self).slots@,
            live(old(self).slots@, h as int) ==> final(self).slots@ == sp_transform(
                sp_add_angle_lul(old(self).slots@, h as int, Vec3d { x: 0, y: 0, z: rla.rad }),
                h as int,
                mat_rotation_around_vec(
                    norm3(col_z(core_at(old(self).slots@, h as int).transform)),
                    *rla,
                ),
                old(self).slots@.len() + 1,
            ),
    {
        if !self.is_live(h) {
            return ;
        }
        self.add_angle_lul(h, &Vec3d::new(0, 0, rla.rad));
        let axis = self.core_of(h).look_at();
        let m = Matrix4x4::rotation_around_vec(&axis, rla);
        self.transform(h, &m);
    }

    /// Move the object (and children) so that it stands at `point`.
    pub fn translate_to_point(&mut self, h: usize, point: &Vec3d)
        requires
            old(self).slots@.len() < usize::MAX,
            live(old(self).slots@, h as int),
        ensures
            final(self).slots@ == sp_translate(
                old(self).slots@,
                h as int,
                sub3(*point, core_at(old(self).slots@, h as int).position),
                old(self).slots@.len() + 1,
            ),
    {
        let dv = point.sub(&self.core_of(h).position);
        self.translate(h, &dv);
    }

    /// Move the object (and children) a fixed distance toward `point`.
    pub fn attract_to_point(&mut self, h: usize, point: &Vec3d, value: i64)
        requires
            old(self).slots@.len() < usize::MAX,
            live(old(self).slots@, h as int),
        ensures
            final(self).slots@ == sp_translate(
                old(self).slots@,
                h as int,
                scale3(
                    norm3(sub3(*point, core_at(old(self).slots@, h as int).position)),
                    value as int,
                ),
                old(self).slots@.len() + 1,
            ),
    {
        let v = point.sub(&self.core_of(h).position).normalized();
        let dv = v.mul(value);
        self.translate(h, &dv);
    }
}

/// Closing a two-object loop is refused: once the parent holds an
/// attachment keyed by the child's nametag, the child's subtree reaches
/// that nametag, so attaching the parent under the child answers the cycle
/// error.
pub proof fn lemma_attach_cycle_rejected(
    slots: Seq<Option<SceneEntry>>,
    a: int,
    btext: Seq<char>,
    k: int,
    fuel: nat,
)
    requires
        live(slots, a),
        fuel >= 1,
        0 <= k < core_at(slots, a).attached_objects@.len(),
        core_at(slots, a).attached_objects@[k].tag.0@ == btext,
    ensures
        reaches_tag(slots, a, btext, fuel),
{
    lemma_reaches_kids_at(slots, core_at(slots, a).attached_objects@, btext, (fuel - 1) as nat, k);
}

/// A destroyed child is silently skipped: translating or rotating a dead
/// handle leaves the whole arena untouched, so a parent's walk over its
/// attachments simply passes over it.
pub proof fn lemma_dead_child_skipped(
    slots: Seq<Option<SceneEntry>>,
    h: int,
    dv: Vec3d,
    point: Vec3d,
    m: Matrix4x4,
    fuel: nat,
)
    requires
        !live(slots, h),
    ensures
        sp_translate(slots, h, dv, fuel) == slots,
        sp_trp(slots, h, point, m, fuel) == slots,
        sp_transform(slots, h, m, fuel) == slots,
{
}


/// A tag that `find_tag` does not find occurs nowhere in the list.
pub proof fn lemma_find_tag_missing(entries: Seq<AttachEntry>, tag: Seq<char>)
    requires
        find_tag(entries, tag) == -1,
    ensures
        forall|j: int| 0 <= j < entries.len() ==> entries[j].tag.0@ != tag,
    decreases entries.len(),
{
    if entries.len() > 0 {
        lemma_find_tag_range(entries.drop_first(), tag);
        lemma_find_tag_missing(entries.drop_first(), tag);
        assert forall|j: int| 0 <= j < entries.len() implies entries[j].tag.0@ != tag by {
            if j > 0 {
                assert(entries[j] == entries.drop_first()[j - 1]);
            }
        }
    }
}

/// The attachment table keeps at most one entry per tag: both outcomes of
/// an attachment — a fresh entry pushed under an unseen tag, or the entry
/// under an existing tag replaced in place — preserve the uniqueness of
/// the stored tags.
pub proof fn lemma_attach_keeps_tags_unique(
    kids0: Seq<AttachEntry>,
    kids1: Seq<AttachEntry>,
    ctag: Seq<char>,
)
    requires
        attach_entries_wf(kids0),
        find_tag(kids0, ctag) == -1 ==> kids1.len() == kids0.len() + 1 && kids1.drop_last()
            == kids0 && kids1.last().tag.0@ == ctag,
        find_tag(kids0, ctag) >= 0 ==> kids1.len() == kids0.len() && (forall|q: int|
            0 <= q < kids0.len() && q != find_tag(kids0, ctag) ==> kids1[q] == kids0[q])
            && kids1[find_tag(kids0, ctag)].tag.0@ == ctag,
    ensures
        attach_entries_wf(kids1),
{
    lemma_find_tag_range(kids0, ctag);
    let k = find_tag(kids0, ctag);
    if k == -1 {
        lemma_find_tag_missing(kids0, ctag);
        assert forall|i: int, j: int|
            0 <= i < j < kids1.len() implies kids1[i].tag.0@ != kids1[j].tag.0@ by {
            if j < kids1.len() - 1 {
                assert(kids1[i] == kids0[i] && kids1[j] == kids0[j]);
            } else {
                assert(kids1[i] == kids0[i]);
            }
        }
    } else {
        lemma_find_tag_found(kids0, ctag);
        assert forall|i: int, j: int|
            0 <= i < j < kids1.len() implies kids1[i].tag.0@ != kids1[j].tag.0@ by {
            if i != k && j != k {
                assert(kids1[i] == kids0[i] && kids1[j] == kids0[j]);
            }
        }
    }
}

/// `find_tag` answers -1 or an index, nothing else.
pub proof fn lemma_find_tag_range(entries: Seq<AttachEntry>, tag: Seq<char>)
    ensures
        -1 <= find_tag(entries, tag) < entries.len(),
    decreases entries.len(),
{
    if entries.len() > 0 && entries.first().tag.0@ != tag {
        lemma_find_tag_range(entries.drop_first(), tag);
    }
}

/// A found tag sits at the reported index, and nowhere earlier.
pub proof fn lemma_find_tag_found(entries: Seq<AttachEntry>, tag: Seq<char>)
    requires
        find_tag(entries, tag) >= 0,
    ensures
        0 <= find_tag(entries, tag) < entries.len(),
        entries[find_tag(entries, tag)].tag.0@ == tag,
        forall|j: int| 0 <= j < find_tag(entries, tag) ==> entries[j].tag.0@ != tag,
    decreases entries.len(),
{
    if entries.len() > 0 && entries.first().tag.0@ != tag {
        lemma_find_tag_range(entries.drop_first(), tag);
        lemma_find_tag_found(entries.drop_first(), tag);
        let k = find_tag(entries, tag);
        assert(entries[k] == entries.drop_first()[k - 1]);
        assert forall|j: int| 0 <= j < k implies entries[j].tag.0@ != tag by {
            if j > 0 {
                assert(entries[j] == entries.drop_first()[j - 1]);
            }
        }
    }
}

} // verus!
