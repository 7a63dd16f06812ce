use spine_pbr::material::{
    fragment_shader, shader_location, update_material, vertex_shader, Cursor, SpinePbr,
    SpinePbrMaterial, VertexAttribute, DARK_COLOR_SHADER_POSITION, LIGHT_HEIGHT,
    ROTATION_SHADER_POSITION,
};
use spine_pbr::renderable::BlendMode;
use spine_pbr::scalar::Point2;
use spine_pbr::sync::BindingInfo;

fn point(x: f32, y: f32) -> Point2 {
    Point2 { x: x.to_bits(), y: y.to_bits() }
}

fn cursor(x: f32, y: f32) -> Cursor {
    Cursor { window_position: point(0.0, 0.0), world_position: point(x, y) }
}

fn info() -> BindingInfo {
    BindingInfo {
        slot_index: 3,
        texture: String::from("base.png"),
        blend_mode: BlendMode::Normal,
        premultiplied_alpha: true,
    }
}

fn context() -> SpinePbr {
    SpinePbr { normal_map: String::from("base_n.png") }
}

#[test]
fn light_position_follows_cursor_at_fixed_height() {
    let ctx = context();
    let m: SpinePbrMaterial =
        update_material(None, Some(&ctx), &info(), &cursor(10.0, 20.0)).unwrap();
    assert_eq!(m.image, "base.png");
    assert_eq!(m.normal_image, "base_n.png");
    assert_eq!(f32::from_bits(m.light_position.x), 10.0);
    assert_eq!(f32::from_bits(m.light_position.y), 20.0);
    assert_eq!(m.light_position.z, LIGHT_HEIGHT);
    assert_eq!(f32::from_bits(m.light_position.z), 0.1);
    assert_eq!(f32::from_bits(m.light_position.w), 0.0);
}

#[test]
fn moving_the_cursor_changes_only_the_light() {
    let ctx = context();
    let before = update_material(None, Some(&ctx), &info(), &cursor(10.0, 20.0)).unwrap();
    let after =
        update_material(Some(before), Some(&ctx), &info(), &cursor(-4.0, 7.5)).unwrap();
    assert_eq!(after.image, "base.png");
    assert_eq!(after.normal_image, "base_n.png");
    assert_eq!(f32::from_bits(after.light_position.x), -4.0);
    assert_eq!(f32::from_bits(after.light_position.y), 7.5);
    assert_eq!(after.light_position.z, LIGHT_HEIGHT);
    assert_eq!(f32::from_bits(after.light_position.w), 0.0);
}

#[test]
fn attribute_locations_and_shader_paths_are_fixed() {
    assert_eq!(shader_location(VertexAttribute::Position), 0);
    assert_eq!(shader_location(VertexAttribute::Normal), 1);
    assert_eq!(shader_location(VertexAttribute::Uv), 2);
    assert_eq!(shader_location(VertexAttribute::Color), 4);
    assert_eq!(shader_location(VertexAttribute::DarkColor), DARK_COLOR_SHADER_POSITION);
    assert_eq!(shader_location(VertexAttribute::Rotation), ROTATION_SHADER_POSITION);
    assert_eq!(DARK_COLOR_SHADER_POSITION, 10);
    assert_eq!(ROTATION_SHADER_POSITION, 11);
    assert_eq!(vertex_shader(), "spine_pbr_vert.wgsl");
    assert_eq!(fragment_shader(), "spine_pbr_frag.wgsl");
}

#[test]
fn node_without_context_gets_no_material() {
    let out = update_material(None, None, &info(), &cursor(10.0, 20.0));
    assert!(out.is_none());
}
