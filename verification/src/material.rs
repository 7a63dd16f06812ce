//! Material binding: per draw-call node, the bound parameter set the shader
//! stage consumes — base texture, normal map, light position.
use vstd::prelude::*;

use crate::scalar::{Point2, Quad, Scalar, SCALAR_ZERO};
use crate::sync::BindingInfo;

verus! {

/// Encoding of the fixed light height above the 2D plane.
pub const LIGHT_HEIGHT: Scalar = 0x3DCC_CCCD;

/// The shader location of the dark-color vertex attribute.
pub const DARK_COLOR_SHADER_POSITION: u32 = 10;

/// The shader location of the rotation vertex attribute.
pub const ROTATION_SHADER_POSITION: u32 = 11;

/// The vertex attributes the material's render pipeline binds.
#[derive(Clone, Copy, PartialEq, Eq, Structural, Debug)]
pub enum VertexAttribute {
    Position,
    Normal,
    Uv,
    Color,
    DarkColor,
    Rotation,
}

/// The shader location each vertex attribute is bound at.
pub fn shader_location(attribute: VertexAttribute) -> (loc: u32)
    ensures
        loc == match attribute {
            VertexAttribute::Position => 0u32,
            VertexAttribute::Normal => 1u32,
            VertexAttribute::Uv => 2u32,
            VertexAttribute::Color => 4u32,
            VertexAttribute::DarkColor => DARK_COLOR_SHADER_POSITION,
            VertexAttribute::Rotation => ROTATION_SHADER_POSITION,
        },
{
    match attribute {
        VertexAttribute::Position => 0,
        VertexAttribute::Normal => 1,
        VertexAttribute::Uv => 2,
        VertexAttribute::Color => 4,
        VertexAttribute::DarkColor => DARK_COLOR_SHADER_POSITION,
        VertexAttribute::Rotation => ROTATION_SHADER_POSITION,
    }
}

/// The vertex-stage shader asset of the material.
pub fn vertex_shader() -> (path: &'static str)
    ensures
        path@ == "spine_pbr_vert.wgsl"@,
{
    "spine_pbr_vert.wgsl"
}

/// The fragment-stage shader asset of the material.
pub fn fragment_shader() -> (path: &'static str)
    ensures
        path@ == "spine_pbr_frag.wgsl"@,
{
    "spine_pbr_frag.wgsl"
}

/// The marker a skeleton instance carries when it takes part in this
/// rendering mode: its statically assigned normal-map texture path.
pub struct SpinePbr {
    pub normal_map: String,
}

/// The current cursor sample: its window position and its projection into
/// world space. Written once per frame by the input collaborator; the
/// binder only reads the world position.
#[derive(Clone, Copy, PartialEq, Eq, Structural, Debug)]
pub struct Cursor {
    pub window_position: Point2,
    pub world_position: Point2,
}

/// The bound material parameter set of one draw-call node, rebuilt every
/// frame.
pub struct SpinePbrMaterial {
    pub image: String,
    pub normal_image: String,
    pub light_position: Quad,
}

/// What a bound material holds: the binding's base texture, the instance's
/// normal map, and the light placed at the cursor's world position at the
/// fixed height, with the unused fourth component zero.
pub open spec fn is_bound_material(
    m: SpinePbrMaterial,
    ctx: SpinePbr,
    info: BindingInfo,
    cursor: Cursor,
) -> bool {
    &&& m.image@ == info.texture@
    &&& m.normal_image@ == ctx.normal_map@
    &&& m.light_position == (Quad {
        x: cursor.world_position.x,
        y: cursor.world_position.y,
        z: LIGHT_HEIGHT,
        w: SCALAR_ZERO,
    })
}

/// Rebind one draw-call node's material for this frame.
///
/// A node without skeleton-instance context produces no material and is
/// left to default handling. Otherwise every parameter is rebuilt from this
/// frame's binding info and cursor; whatever material existed before is
/// replaced whole, so the result does not depend on `previous`.
pub fn update_material(
    previous: Option<SpinePbrMaterial>,
    context: Option<&SpinePbr>,
    info: &BindingInfo,
    cursor: &Cursor,
) -> (out: Option<SpinePbrMaterial>)
    ensures
        match context {
            Some(ctx) => out matches Some(m) && is_bound_material(m, *ctx, *info, *cursor),
            None => out is None,
        },
{
    let _ = previous;
    match context {
        Some(ctx) => Some(
            SpinePbrMaterial {
                image: info.texture.clone(),
                normal_image: ctx.normal_map.clone(),
                light_position: Quad {
                    x: cursor.world_position.x,
                    y: cursor.world_position.y,
                    z: LIGHT_HEIGHT,
                    w: SCALAR_ZERO,
                },
            },
        ),
        None => None,
    }
}

/// Moving the cursor alone moves only the light: two materials bound from
/// the same binding info and the same normal map carry the same textures,
/// keep the fixed light height and zero fourth component, and agree on the
/// whole light position as soon as the cursors' world positions agree.
pub proof fn lemma_cursor_moves_only_light(
    m1: SpinePbrMaterial,
    m2: SpinePbrMaterial,
    ctx: SpinePbr,
    info: BindingInfo,
    c1: Cursor,
    c2: Cursor,
)
    requires
        is_bound_material(m1, ctx, info, c1),
        is_bound_material(m2, ctx, info, c2),
    ensures
        m1.image@ == m2.image@,
        m1.normal_image@ == m2.normal_image@,
        m1.light_position.z == LIGHT_HEIGHT,
        m1.light_position.w == SCALAR_ZERO,
        m1.light_position.z == m2.light_position.z,
        m1.light_position.w == m2.light_position.w,
        c1.world_position == c2.world_position ==> m1.light_position == m2.light_position,
{
}

} // verus!
