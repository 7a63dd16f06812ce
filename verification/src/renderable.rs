//! One frame's drawable triangle mesh for one skeletal attachment slot.
use vstd::prelude::*;

use crate::scalar::{Point2, Rgba};

verus! {

/// How a renderable blends over what is already drawn.
#[derive(Clone, Copy, PartialEq, Eq, Structural, Debug)]
pub enum BlendMode {
    Normal,
    Additive,
    Multiply,
    Screen,
}

/// One deforming triangle mesh, valid for exactly one frame.
///
/// `indices` is a triangle list: three entries per triangle, each an index
/// into `vertices`. `uvs` is index-aligned with `vertices`. `color` and
/// `dark_color` tint all vertices uniformly this frame. `texture` is the
/// resolvable texture path, absent when the slot has no drawable attachment
/// this frame.
pub struct Renderable {
    pub slot_index: usize,
    pub vertices: Vec<Point2>,
    pub uvs: Vec<Point2>,
    pub indices: Vec<u16>,
    pub color: Rgba,
    pub dark_color: Rgba,
    pub blend_mode: BlendMode,
    pub premultiplied_alpha: bool,
    pub texture: Option<String>,
}

impl Renderable {
    /// The mesh invariant: whole triangles only, every index in bounds, and
    /// one texture coordinate per vertex.
    pub open spec fn wf(self) -> bool {
        &&& self.indices@.len() % 3 == 0
        &&& forall|i: int|
            0 <= i < self.indices@.len() ==> (#[trigger] self.indices@[i]) < self.vertices@.len()
        &&& self.uvs@.len() == self.vertices@.len()
    }
}

} // verus!
