//! Tangent-basis estimation: one rotation per vertex, averaged over the
//! triangles that touch it.
//!
//! The trigonometric kernels (edge normalization, signed angles, the damped
//! circular lerp, and the final angle-to-matrix conversion) act on scalar
//! encodings this crate does not interpret, so the caller evaluates them:
//! [`triangle_edges`] lists the edge pair of every triangle, the caller turns
//! each pair into that triangle's rotation angle, and a
//! [`RotationAccumulator`] then drives the per-vertex averaging one step at a
//! time, handing out each lerp request through [`RotationAccumulator::pending`]
//! and taking the evaluated angle back through
//! [`RotationAccumulator::supply`]. Everything around the kernels — which
//! edges are sampled, in which order the averages are updated, which counts
//! and angles each request carries, and what ends up in the output — is
//! verified.
use vstd::prelude::*;

use crate::renderable::Renderable;
use crate::scalar::{spec_identity_rotation, Point2, Rotation, Scalar, SCALAR_ZERO};

verus! {

/// How many entries of `s` equal `v`.
pub open spec fn occ(s: Seq<u16>, v: int) -> nat
    decreases s.len(),
{
    if s.len() == 0 {
        0
    } else {
        occ(s.drop_last(), v) + if s.last() as int == v {
            1nat
        } else {
            0nat
        }
    }
}

/// No more entries equal `v` than there are entries.
pub proof fn lemma_occ_le_len(s: Seq<u16>, v: int)
    ensures
        occ(s, v) <= s.len(),
    decreases s.len(),
{
    if s.len() > 0 {
        lemma_occ_le_len(s.drop_last(), v);
    }
}

/// Extending a prefix by one entry raises the tally of that entry's value by
/// one and leaves every other tally unchanged.
pub proof fn lemma_occ_take_step(s: Seq<u16>, p: int, v: int)
    requires
        0 <= p < s.len(),
    ensures
        occ(s.take(p + 1), v) == occ(s.take(p), v) + if s[p] as int == v {
            1nat
        } else {
            0nat
        },
{
    assert(s.take(p + 1).drop_last() =~= s.take(p));
    assert(s.take(p + 1).last() == s[p]);
}

/// The two mesh edges one triangle contributes to the estimate: the first
/// two of its corners, in position space and in texture space. The caller
/// normalizes both differences, flips the position edge's vertical axis,
/// and takes the signed angle from the texture edge to the position edge.
#[derive(Clone, Copy, PartialEq, Eq, Structural, Debug)]
pub struct EdgeSample {
    pub pos_a: Point2,
    pub pos_b: Point2,
    pub uv_a: Point2,
    pub uv_b: Point2,
}

/// The edge sample of triangle `t` of `r`: the positions and texture
/// coordinates of its first two corners.
pub open spec fn spec_edge_sample(r: Renderable, t: int) -> EdgeSample {
    EdgeSample {
        pos_a: r.vertices@[r.indices@[3 * t] as int],
        pos_b: r.vertices@[r.indices@[3 * t + 1] as int],
        uv_a: r.uvs@[r.indices@[3 * t] as int],
        uv_b: r.uvs@[r.indices@[3 * t + 1] as int],
    }
}

/// One edge sample per triangle of `r`, in triangle order.
pub fn triangle_edges(r: &Renderable) -> (out: Vec<EdgeSample>)
    requires
        r.wf(),
    ensures
        out@.len() == r.indices@.len() / 3,
        forall|t: int| 0 <= t < out@.len() ==> #[trigger] out@[t] == spec_edge_sample(*r, t),
{
    let n_triangles = r.indices.len() / 3;
    proof {
        vstd::arithmetic::div_mod::lemma_fundamental_div_mod(r.indices@.len() as int, 3);
    }
    let mut out: Vec<EdgeSample> = Vec::new();
    let mut t: usize = 0;
    while t < n_triangles
        invariant
            r.wf(),
            n_triangles == r.indices@.len() / 3,
            3 * n_triangles == r.indices@.len(),
            r.indices@.len() <= usize::MAX,
            t <= n_triangles,
            out@.len() == t,
            forall|j: int| 0 <= j < t ==> #[trigger] out@[j] == spec_edge_sample(*r, j),
        decreases n_triangles - t,
    {
        let i1 = r.indices[3 * t] as usize;
        let i2 = r.indices[3 * t + 1] as usize;
        out.push(
            EdgeSample {
                pos_a: r.vertices[i1],
                pos_b: r.vertices[i2],
                uv_a: r.uvs[i1],
                uv_b: r.uvs[i2],
            },
        );
        t = t + 1;
    }
    out
}

/// One damped circular-lerp request: move `current` toward `target` by the
/// reciprocal of `count`. `count` already includes the contribution being
/// folded in, so the first contribution to a vertex arrives with `count`
/// one and `current` zero.
#[derive(Clone, Copy, PartialEq, Eq, Structural, Debug)]
pub struct LerpStep {
    pub current: Scalar,
    pub target: Scalar,
    pub count: u32,
}

/// The running per-vertex averaging state for one renderable.
///
/// `indices` is walked one entry at a time; entry `pos` is the next vertex
/// awaiting a contribution from triangle `pos / 3`. `counts[v]` tallies the
/// contributions folded into vertex `v` so far and `angles[v]` holds its
/// running averaged angle, zero until the first contribution lands.
pub struct RotationAccumulator {
    pub indices: Vec<u16>,
    pub tri_angles: Vec<Scalar>,
    pub counts: Vec<u32>,
    pub angles: Vec<Scalar>,
    pub pos: usize,
}

impl RotationAccumulator {
    /// The accumulator invariant. The tallies always equal the number of
    /// walked index entries naming the vertex, and a vertex without any
    /// contribution still holds the angle zero.
    pub open spec fn wf(self) -> bool {
        &&& self.indices@.len() % 3 == 0
        &&& self.indices@.len() <= u32::MAX
        &&& self.tri_angles@.len() == self.indices@.len() / 3
        &&& self.counts@.len() == self.angles@.len()
        &&& self.pos <= self.indices@.len()
        &&& forall|i: int|
            0 <= i < self.indices@.len() ==> (#[trigger] self.indices@[i])
                < self.counts@.len()
        &&& forall|v: int|
            0 <= v < self.counts@.len() ==> (#[trigger] self.counts@[v]) == occ(
                self.indices@.take(self.pos as int),
                v,
            )
        &&& forall|v: int|
            0 <= v < self.counts@.len() && self.counts@[v] == 0 ==> (#[trigger] self.angles@[v])
                == SCALAR_ZERO
    }

    /// Whether every index entry has received its contribution.
    pub open spec fn complete(self) -> bool {
        self.pos == self.indices@.len()
    }

    /// The vertex the next contribution goes to.
    pub open spec fn current_vertex(self) -> int {
        self.indices@[self.pos as int] as int
    }

    /// The lerp request the accumulator is waiting on, if any.
    pub open spec fn spec_pending(self) -> Option<LerpStep> {
        if self.pos < self.indices@.len() {
            Some(
                LerpStep {
                    current: self.angles@[self.current_vertex()],
                    target: self.tri_angles@[self.pos as int / 3],
                    count: (self.counts@[self.current_vertex()] + 1) as u32,
                },
            )
        } else {
            None
        }
    }

    /// A fresh accumulator: every tally zero, every angle zero, nothing
    /// walked yet.
    pub fn new(vertex_count: usize, indices: Vec<u16>, tri_angles: Vec<Scalar>) -> (acc: Self)
        requires
            indices@.len() % 3 == 0,
            indices@.len() <= u32::MAX,
            tri_angles@.len() == indices@.len() / 3,
            forall|i: int| 0 <= i < indices@.len() ==> (#[trigger] indices@[i]) < vertex_count,
        ensures
            acc.wf(),
            acc.pos == 0,
            acc.indices == indices,
            acc.tri_angles == tri_angles,
            acc.counts@ == Seq::new(vertex_count as nat, |v: int| 0u32),
            acc.angles@ == Seq::new(vertex_count as nat, |v: int| SCALAR_ZERO),
    {
        let counts = crate::scalar::repeated(vertex_count, 0u32);
        let angles = crate::scalar::repeated(vertex_count, SCALAR_ZERO);
        let acc = RotationAccumulator { indices, tri_angles, counts, angles, pos: 0 };
        proof {
            assert(acc.indices@.take(0).len() == 0);
            assert(forall|v: int|
                0 <= v < acc.counts@.len() ==> (#[trigger] acc.counts@[v]) == occ(
                    acc.indices@.take(0),
                    v,
                ));
        }
        acc
    }

    /// The next lerp request, or nothing once the walk is complete.
    pub fn pending(&self) -> (r: Option<LerpStep>)
        requires
            self.wf(),
        ensures
            r == self.spec_pending(),
    {
        if self.pos < self.indices.len() {
            let v = self.indices[self.pos] as usize;
            proof {
                lemma_occ_le_len(self.indices@.take(self.pos as int), v as int);
                assert(self.indices@.take(self.pos as int).len() == self.pos as int);
                lemma_div3_lt(self.pos as int, self.indices@.len() as int);
            }
            let t = self.pos / 3;
            Some(
                LerpStep {
                    current: self.angles[v],
                    target: self.tri_angles[t],
                    count: self.counts[v] + 1,
                },
            )
        } else {
            None
        }
    }

    /// Fold the evaluated angle of the pending request back in: the tally of
    /// the current vertex rises by one, its running angle becomes `reply`,
    /// and the walk moves to the next index entry.
    pub fn supply(&mut self, reply: Scalar)
        requires
            old(self).wf(),
            !old(self).complete(),
        ensures
            final(self).wf(),
            final(self).indices == old(self).indices,
            final(self).tri_angles == old(self).tri_angles,
            final(self).pos == old(self).pos + 1,
            final(self).counts@ == old(self).counts@.update(
                old(self).current_vertex(),
                (old(self).counts@[old(self).current_vertex()] + 1) as u32,
            ),
            final(self).angles@ == old(self).angles@.update(
                old(self).current_vertex(),
                reply,
            ),
    {
        let ghost prev = *self;
        let v = self.indices[self.pos] as usize;
        proof {
            lemma_occ_le_len(self.indices@.take(self.pos as int), v as int);
            assert(self.indices@.take(self.pos as int).len() == self.pos as int);
        }
        let c = self.counts[v];
        self.counts.set(v, c + 1);
        self.angles.set(v, reply);
        self.pos = self.pos + 1;
        proof {
            assert forall|w: int| 0 <= w < self.counts@.len() implies (#[trigger] self.counts@[w])
                == occ(self.indices@.take(self.pos as int), w) by {
                lemma_occ_take_step(prev.indices@, prev.pos as int, w);
            }
        }
    }

    /// The finished per-vertex rotations. `mats` holds, for every vertex,
    /// the caller's matrix for that vertex's accumulated angle; a vertex no
    /// triangle touched gets the identity rotation instead.
    pub fn assemble(&self, mats: &Vec<Rotation>) -> (out: Vec<Rotation>)
        requires
            self.wf(),
            self.complete(),
            mats@.len() == self.counts@.len(),
        ensures
            out@ == spec_assemble(self.counts@, mats@),
    {
        let n = self.counts.len();
        let mut out: Vec<Rotation> = Vec::new();
        let mut v: usize = 0;
        while v < n
            invariant
                n == self.counts@.len(),
                mats@.len() == n,
                v <= n,
                out@.len() == v,
                forall|w: int| 0 <= w < v ==> #[trigger] out@[w] == spec_assemble(
                    self.counts@,
                    mats@,
                )[w],
            decreases n - v,
        {
            if self.counts[v] == 0 {
                out.push(crate::scalar::identity_rotation());
            } else {
                out.push(mats[v]);
            }
            v = v + 1;
        }
        proof {
            assert(out@ =~= spec_assemble(self.counts@, mats@));
        }
        out
    }
}

/// What the assembled output holds: the caller's matrix for every touched
/// vertex, the identity rotation for every other vertex.
pub open spec fn spec_assemble(counts: Seq<u32>, mats: Seq<Rotation>) -> Seq<Rotation> {
    Seq::new(
        counts.len(),
        |v: int|
            if counts[v] == 0 {
                spec_identity_rotation()
            } else {
                mats[v]
            },
    )
}

/// Division by three keeps strict order against a multiple of three: the
/// pending entry's triangle is always in range.
proof fn lemma_div3_lt(p: int, len: int)
    requires
        0 <= p < len,
        len % 3 == 0,
    ensures
        p / 3 < len / 3,
{
    assert(p / 3 < len / 3) by (nonlinear_arith)
        requires
            0 <= p < len,
            len % 3 == 0,
    ;
}

/// A vertex named by no index entry keeps the tally zero and the angle
/// zero, so the assembled output hands it the identity rotation.
pub proof fn lemma_unreferenced_vertex_identity(acc: RotationAccumulator, mats: Seq<Rotation>, v: int)
    requires
        acc.wf(),
        acc.complete(),
        mats.len() == acc.counts@.len(),
        0 <= v < acc.counts@.len(),
        occ(acc.indices@, v) == 0,
    ensures
        acc.counts@[v] == 0,
        acc.angles@[v] == SCALAR_ZERO,
        spec_assemble(acc.counts@, mats)[v] == spec_identity_rotation(),
{
    assert(acc.indices@.take(acc.pos as int) =~= acc.indices@);
}

/// The first contribution to a vertex always starts from the angle zero
/// with the tally one: the damped average's base case folds the triangle's
/// own angle against a zero current angle.
pub proof fn lemma_first_contribution_base_case(acc: RotationAccumulator)
    requires
        acc.wf(),
        !acc.complete(),
        acc.counts@[acc.current_vertex()] == 0,
    ensures
        acc.spec_pending() == Some(
            LerpStep {
                current: SCALAR_ZERO,
                target: acc.tri_angles@[acc.pos as int / 3],
                count: 1u32,
            },
        ),
{
}

} // verus!
