//! Mesh synchronization: each frame, the ordered renderables are mapped
//! onto the skeleton's persistent mesh slots, buffer by buffer.
//!
//! Walking the slots in their fixed order, every resolvable slot consumes
//! the next renderable in draw order. A renderable with a texture is written
//! out in full — index buffer, positions, placeholder normals, texture
//! coordinates, broadcast tints, the estimated rotations, and the next depth
//! value of the caller's strictly increasing sequence. A renderable without
//! a texture, or a slot beyond the last renderable, leaves its slot empty.
//! An unresolvable slot is skipped for the frame without consuming a
//! renderable, and heals on its own the next frame.
use vstd::prelude::*;

use crate::renderable::{BlendMode, Renderable};
use crate::scalar::{repeated, Point2, Point3, Rgba, Rotation, Scalar, SCALAR_ZERO};

verus! {

/// The render-binding info a written slot publishes for material binding.
pub struct BindingInfo {
    pub slot_index: usize,
    pub texture: String,
    pub blend_mode: BlendMode,
    pub premultiplied_alpha: bool,
}

/// The per-frame state of a mesh slot: empty, or bound to a renderable.
pub enum SlotState {
    Empty,
    Bound(BindingInfo),
}

/// One persistent GPU mesh slot: an index buffer, the named vertex
/// attribute buffers, the slot's depth, and the published binding state.
pub struct MeshSlot {
    pub indices: Vec<u16>,
    pub positions: Vec<Point2>,
    pub normals: Vec<Point3>,
    pub uvs: Vec<Point2>,
    pub colors: Vec<Rgba>,
    pub dark_colors: Vec<Rgba>,
    pub rotations: Vec<Rotation>,
    pub depth: Scalar,
    pub state: SlotState,
}

/// The binding a written slot publishes for `r`.
pub open spec fn binding_for(b: BindingInfo, r: Renderable) -> bool {
    &&& b.slot_index == r.slot_index
    &&& r.texture is Some
    &&& b.texture@ == r.texture.unwrap()@
    &&& b.blend_mode == r.blend_mode
    &&& b.premultiplied_alpha == r.premultiplied_alpha
}

/// A slot holding exactly the data of renderable `r`: its index buffer and
/// positions and texture coordinates, one placeholder normal and one copy
/// of each tint per vertex, the estimated rotations, the assigned depth,
/// and the published binding.
pub open spec fn is_written(s: MeshSlot, r: Renderable, rots: Seq<Rotation>, depth: Scalar) -> bool {
    let v = r.vertices@.len();
    &&& s.indices@ == r.indices@
    &&& s.positions@ == r.vertices@
    &&& s.normals@ == Seq::new(v, |i: int| Point3 { x: SCALAR_ZERO, y: SCALAR_ZERO, z: SCALAR_ZERO })
    &&& s.uvs@ == r.uvs@
    &&& s.colors@ == Seq::new(v, |i: int| r.color)
    &&& s.dark_colors@ == Seq::new(v, |i: int| r.dark_color)
    &&& s.rotations@ == rots
    &&& s.depth == depth
    &&& s.state matches SlotState::Bound(b) && binding_for(b, r)
}

/// A slot forced to the empty state: every buffer zero length, no binding,
/// the depth left as it was.
pub open spec fn is_cleared(s: MeshSlot, prev: MeshSlot) -> bool {
    &&& s.indices@.len() == 0
    &&& s.positions@.len() == 0
    &&& s.normals@.len() == 0
    &&& s.uvs@.len() == 0
    &&& s.colors@.len() == 0
    &&& s.dark_colors@.len() == 0
    &&& s.rotations@.len() == 0
    &&& s.depth == prev.depth
    &&& s.state is Empty
}

/// How many of the first `k` slots are resolvable: the position in the
/// renderable sequence that slot `k` consumes.
pub open spec fn rank(res: Seq<bool>, k: int) -> nat
    decreases k,
{
    if k <= 0 {
        0
    } else {
        rank(res, k - 1) + if res[k - 1] {
            1nat
        } else {
            0nat
        }
    }
}

/// Whether slot `k` is written this frame: it resolves, a renderable is
/// left for it, and that renderable has a texture.
pub open spec fn slot_writes(res: Seq<bool>, rs: Seq<Renderable>, k: int) -> bool {
    &&& res[k]
    &&& rank(res, k) < rs.len()
    &&& rs[rank(res, k) as int].texture is Some
}

/// How many of the first `k` slots are written: the position in the depth
/// sequence that slot `k` uses when written.
pub open spec fn write_rank(res: Seq<bool>, rs: Seq<Renderable>, k: int) -> nat
    decreases k,
{
    if k <= 0 {
        0
    } else {
        write_rank(res, rs, k - 1) + if slot_writes(res, rs, k - 1) {
            1nat
        } else {
            0nat
        }
    }
}

/// What the frame does to slot `k`: untouched when unresolvable, written
/// from its renderable when one with a texture is left, cleared otherwise.
pub open spec fn slot_outcome(
    prev: Seq<MeshSlot>,
    cur: Seq<MeshSlot>,
    res: Seq<bool>,
    rs: Seq<Renderable>,
    rots: Seq<Vec<Rotation>>,
    depths: Seq<Scalar>,
    k: int,
) -> bool {
    let ri = rank(res, k) as int;
    if !res[k] {
        cur[k] == prev[k]
    } else if ri < rs.len() && rs[ri].texture is Some {
        is_written(cur[k], rs[ri], rots[ri]@, depths[write_rank(res, rs, k) as int])
    } else {
        is_cleared(cur[k], prev[k])
    }
}

impl MeshSlot {
    /// A fresh slot: everything empty, depth zero.
    pub fn new() -> (s: MeshSlot)
        ensures
            s.indices@.len() == 0,
            s.positions@.len() == 0,
            s.normals@.len() == 0,
            s.uvs@.len() == 0,
            s.colors@.len() == 0,
            s.dark_colors@.len() == 0,
            s.rotations@.len() == 0,
            s.depth == SCALAR_ZERO,
            s.state is Empty,
    {
        MeshSlot {
            indices: Vec::new(),
            positions: Vec::new(),
            normals: Vec::new(),
            uvs: Vec::new(),
            colors: Vec::new(),
            dark_colors: Vec::new(),
            rotations: Vec::new(),
            depth: SCALAR_ZERO,
            state: SlotState::Empty,
        }
    }
}

/// A slot in the empty state that keeps the given depth.
fn cleared_slot(depth: Scalar) -> (s: MeshSlot)
    ensures
        s.indices@.len() == 0,
        s.positions@.len() == 0,
        s.normals@.len() == 0,
        s.uvs@.len() == 0,
        s.colors@.len() == 0,
        s.dark_colors@.len() == 0,
        s.rotations@.len() == 0,
        s.depth == depth,
        s.state is Empty,
{
    let mut s = MeshSlot::new();
    s.depth = depth;
    s
}

/// A slot filled with the full buffer set of `r` at the given depth.
fn written_slot(r: &Renderable, rots: &Vec<Rotation>, depth: Scalar) -> (s: MeshSlot)
    requires
        r.wf(),
        rots@.len() == r.vertices@.len(),
        r.texture is Some,
    ensures
        is_written(s, *r, rots@, depth),
{
    let v = r.vertices.len();
    let texture = match &r.texture {
        Some(t) => t.clone(),
        None => vstd::pervasive::unreached(),
    };
    let s = MeshSlot {
        indices: r.indices.clone(),
        positions: r.vertices.clone(),
        normals: repeated(v, Point3 { x: SCALAR_ZERO, y: SCALAR_ZERO, z: SCALAR_ZERO }),
        uvs: r.uvs.clone(),
        colors: repeated(v, r.color),
        dark_colors: repeated(v, r.dark_color),
        rotations: rots.clone(),
        depth,
        state: SlotState::Bound(
            BindingInfo {
                slot_index: r.slot_index,
                texture,
                blend_mode: r.blend_mode,
                premultiplied_alpha: r.premultiplied_alpha,
            },
        ),
    };
    proof {
        assert(s.indices@ =~= r.indices@);
        assert(s.positions@ =~= r.vertices@);
        assert(s.uvs@ =~= r.uvs@);
        assert(s.rotations@ =~= rots@);
    }
    s
}

/// One frame of mesh synchronization over one skeleton's slots.
///
/// `resolvable` marks, slot by slot, whether the slot's GPU mesh resource
/// could be resolved this frame. `renderables` is this frame's draw-ordered
/// renderable sequence, `rotations` the estimated per-vertex rotations of
/// each renderable, and `depths` the strictly increasing depth sequence;
/// the `j`-th written slot receives `depths[j]`.
pub fn synchronize(
    slots: &mut Vec<MeshSlot>,
    resolvable: &Vec<bool>,
    renderables: &Vec<Renderable>,
    rotations: &Vec<Vec<Rotation>>,
    depths: &Vec<Scalar>,
)
    requires
        resolvable@.len() == old(slots)@.len(),
        rotations@.len() == renderables@.len(),
        depths@.len() >= renderables@.len(),
        forall|r: int| 0 <= r < renderables@.len() ==> (#[trigger] renderables@[r]).wf(),
        forall|r: int|
            0 <= r < renderables@.len() ==> (#[trigger] rotations@[r])@.len()
                == renderables@[r].vertices@.len(),
    ensures
        final(slots)@.len() == old(slots)@.len(),
        forall|k: int|
            0 <= k < old(slots)@.len() ==> #[trigger] slot_outcome(
                old(slots)@,
                final(slots)@,
                resolvable@,
                renderables@,
                rotations@,
                depths@,
                k,
            ),
{
    let n = slots.len();
    let mut k: usize = 0;
    let mut ri: usize = 0;
    let mut zi: usize = 0;
    while k < n
        invariant
            n == old(slots)@.len(),
            slots@.len() == n,
            resolvable@.len() == n,
            rotations@.len() == renderables@.len(),
            depths@.len() >= renderables@.len(),
            forall|r: int| 0 <= r < renderables@.len() ==> (#[trigger] renderables@[r]).wf(),
            forall|r: int|
                0 <= r < renderables@.len() ==> (#[trigger] rotations@[r])@.len()
                    == renderables@[r].vertices@.len(),
            k <= n,
            zi <= ri,
            ri <= k,
            ri == rank(resolvable@, k as int),
            zi == write_rank(resolvable@, renderables@, k as int),
            forall|j: int|
                0 <= j < k ==> #[trigger] slot_outcome(
                    old(slots)@,
                    slots@,
                    resolvable@,
                    renderables@,
                    rotations@,
                    depths@,
                    j,
                ),
            forall|j: int| k <= j < n ==> slots@[j] == old(slots)@[j],
        decreases n - k,
    {
        let ghost slots0 = slots@;
        if resolvable[k] {
            if ri < renderables.len() && renderables[ri].texture.is_some() {
                let s = written_slot(&renderables[ri], &rotations[ri], depths[zi]);
                slots.set(k, s);
                zi = zi + 1;
            } else {
                let d = slots[k].depth;
                slots.set(k, cleared_slot(d));
            }
            ri = ri + 1;
        }
        proof {
            assert(slot_outcome(
                old(slots)@,
                slots@,
                resolvable@,
                renderables@,
                rotations@,
                depths@,
                k as int,
            ));
            assert forall|j: int| 0 <= j < k implies #[trigger] slot_outcome(
                old(slots)@,
                slots@,
                resolvable@,
                renderables@,
                rotations@,
                depths@,
                j,
            ) by {
                assert(slot_outcome(
                    old(slots)@,
                    slots0,
                    resolvable@,
                    renderables@,
                    rotations@,
                    depths@,
                    j,
                ));
                assert(slots@[j] == slots0[j]);
            }
        }
        k = k + 1;
    }
}

/// No more slots are written than renderables are offered, whatever the
/// slot count, the resolvable pattern, and the textures: every written slot
/// consumes a renderable of its own.
pub proof fn lemma_write_rank_le_rank(res: Seq<bool>, rs: Seq<Renderable>, k: int)
    ensures
        write_rank(res, rs, k) <= rank(res, k),
    decreases k,
{
    if k > 0 {
        lemma_write_rank_le_rank(res, rs, k - 1);
    }
}

/// Later slots never consume earlier renderables or depths: both positions
/// are monotone over the slot order.
pub proof fn lemma_ranks_monotone(res: Seq<bool>, rs: Seq<Renderable>, k1: int, k2: int)
    requires
        k1 <= k2,
    ensures
        rank(res, k1) <= rank(res, k2),
        write_rank(res, rs, k1) <= write_rank(res, rs, k2),
    decreases k2 - k1,
{
    if k1 < k2 {
        lemma_ranks_monotone(res, rs, k1, k2 - 1);
    }
}

/// Draw order is preserved without a sort: of two written slots, the
/// earlier one takes the strictly earlier renderable and the strictly
/// earlier position in the depth sequence, so a depth sequence that
/// strictly increases puts the written slots at strictly increasing
/// depths in slot order.
pub proof fn lemma_written_slots_ordered(res: Seq<bool>, rs: Seq<Renderable>, k1: int, k2: int)
    requires
        0 <= k1 < k2,
        slot_writes(res, rs, k1),
        slot_writes(res, rs, k2),
    ensures
        rank(res, k1) < rank(res, k2),
        write_rank(res, rs, k1) < write_rank(res, rs, k2),
{
    lemma_ranks_monotone(res, rs, k1 + 1, k2);
}

} // verus!
