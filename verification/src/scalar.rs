//! Plain-value carriers for shader scalars and small vectors.
//!
//! A scalar destined for a GPU vertex attribute or uniform is held as its raw
//! 32-bit encoding. The pipeline never does arithmetic on scalar encodings;
//! it only moves them, compares them, and fills buffers with them.
use vstd::prelude::*;

verus! {

/// One shader scalar, carried as its raw 32-bit encoding.
pub type Scalar = u32;

/// Encoding of the scalar zero.
pub const SCALAR_ZERO: Scalar = 0;

/// Encoding of the scalar one.
pub const SCALAR_ONE: Scalar = 0x3F80_0000;

/// Encoding of the scalar negative zero: the sign bit alone. A negated zero
/// sine keeps this sign bit, and the identity rotation reproduces it.
pub const SCALAR_NEG_ZERO: Scalar = 0x8000_0000;

/// A 2D position or texture coordinate.
#[derive(Clone, Copy, PartialEq, Eq, Structural, Debug)]
pub struct Point2 {
    pub x: Scalar,
    pub y: Scalar,
}

/// A 3D vertex attribute (the placeholder normal).
#[derive(Clone, Copy, PartialEq, Eq, Structural, Debug)]
pub struct Point3 {
    pub x: Scalar,
    pub y: Scalar,
    pub z: Scalar,
}

/// An RGBA tint.
#[derive(Clone, Copy, PartialEq, Eq, Structural, Debug)]
pub struct Rgba {
    pub r: Scalar,
    pub g: Scalar,
    pub b: Scalar,
    pub a: Scalar,
}

/// A 4-component uniform (the light position; `w` is unused and zero).
#[derive(Clone, Copy, PartialEq, Eq, Structural, Debug)]
pub struct Quad {
    pub x: Scalar,
    pub y: Scalar,
    pub z: Scalar,
    pub w: Scalar,
}

/// A per-vertex 2x2 rotation matrix `[[m00, m01], [m10, m11]]`, stored in
/// the attribute order `[m00, m10, m01, m11]`. For the rotation by an angle
/// `a` the entries are `[cos a, -sin a, sin a, cos a]`.
#[derive(Clone, Copy, PartialEq, Eq, Structural, Debug)]
pub struct Rotation {
    pub m00: Scalar,
    pub m10: Scalar,
    pub m01: Scalar,
    pub m11: Scalar,
}

/// The rotation by the angle zero: cosine entries one, sine entries zero.
/// The negated sine keeps the sign bit of its zero, exactly as evaluating
/// the trigonometric kernels at zero produces it.
pub open spec fn spec_identity_rotation() -> Rotation {
    Rotation { m00: SCALAR_ONE, m10: SCALAR_NEG_ZERO, m01: SCALAR_ZERO, m11: SCALAR_ONE }
}

/// The rotation written for every vertex that no triangle touches.
pub fn identity_rotation() -> (r: Rotation)
    ensures
        r == spec_identity_rotation(),
{
    Rotation { m00: SCALAR_ONE, m10: SCALAR_NEG_ZERO, m01: SCALAR_ZERO, m11: SCALAR_ONE }
}

/// A buffer of `n` copies of one value: zero-filled tallies, broadcast
/// tints, placeholder normals.
pub fn repeated<T: Copy>(n: usize, value: T) -> (out: Vec<T>)
    ensures
        out@ == Seq::new(n as nat, |i: int| value),
{
    let mut out: Vec<T> = Vec::new();
    let mut i: usize = 0;
    while i < n
        invariant
            i <= n,
            out@.len() == i,
            forall|j: int| 0 <= j < i ==> #[trigger] out@[j] == value,
        decreases n - i,
    {
        out.push(value);
        i = i + 1;
    }
    proof {
        assert(out@ =~= Seq::new(n as nat, |i: int| value));
    }
    out
}

} // verus!
