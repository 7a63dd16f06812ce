use spine_pbr::renderable::{BlendMode, Renderable};
use spine_pbr::scalar::{identity_rotation, Point2, Rgba, Rotation};
use spine_pbr::sync::{synchronize, MeshSlot, SlotState};

fn point(x: f32, y: f32) -> Point2 {
    Point2 { x: x.to_bits(), y: y.to_bits() }
}

fn tint(r: f32, g: f32, b: f32, a: f32) -> Rgba {
    Rgba { r: r.to_bits(), g: g.to_bits(), b: b.to_bits(), a: a.to_bits() }
}

fn renderable(slot_index: usize, texture: Option<&str>) -> Renderable {
    Renderable {
        slot_index,
        vertices: vec![point(0.0, 0.0), point(1.0, 0.0), point(0.0, 1.0)],
        uvs: vec![point(0.0, 0.0), point(1.0, 0.0), point(0.0, 1.0)],
        indices: vec![0, 1, 2],
        color: tint(1.0, 0.5, 0.25, 1.0),
        dark_color: tint(0.0, 0.0, 0.0, 1.0),
        blend_mode: BlendMode::Normal,
        premultiplied_alpha: false,
        texture: texture.map(String::from),
    }
}

fn rotations_for(r: &Renderable) -> Vec<Rotation> {
    vec![identity_rotation(); r.vertices.len()]
}

fn depth_sequence(n: usize) -> Vec<u32> {
    let mut out = Vec::new();
    let mut z = 0f32;
    for _ in 0..n {
        out.push(z.to_bits());
        z += 0.001;
    }
    out
}

fn is_empty_slot(s: &MeshSlot) -> bool {
    s.indices.is_empty()
        && s.positions.is_empty()
        && s.normals.is_empty()
        && s.uvs.is_empty()
        && s.colors.is_empty()
        && s.dark_colors.is_empty()
        && s.rotations.is_empty()
        && matches!(s.state, SlotState::Empty)
}

#[test]
fn three_renderables_over_five_slots() {
    let renderables =
        vec![renderable(7, Some("a.png")), renderable(8, Some("b.png")), renderable(9, Some("c.png"))];
    let rotations: Vec<Vec<Rotation>> = renderables.iter().map(rotations_for).collect();
    let depths = depth_sequence(3);
    let mut slots: Vec<MeshSlot> = (0..5).map(|_| MeshSlot::new()).collect();
    let resolvable = vec![true; 5];
    synchronize(&mut slots, &resolvable, &renderables, &rotations, &depths);

    for k in 0..3 {
        let slot = &slots[k];
        assert_eq!(slot.indices, vec![0, 1, 2]);
        assert_eq!(slot.positions, renderables[k].vertices);
        assert_eq!(slot.uvs, renderables[k].uvs);
        assert_eq!(slot.normals.len(), 3);
        for n in &slot.normals {
            assert_eq!(f32::from_bits(n.x), 0.0);
            assert_eq!(f32::from_bits(n.y), 0.0);
            assert_eq!(f32::from_bits(n.z), 0.0);
        }
        assert_eq!(slot.colors.len(), 3);
        for c in &slot.colors {
            assert_eq!(*c, renderables[k].color);
        }
        for c in &slot.dark_colors {
            assert_eq!(*c, renderables[k].dark_color);
        }
        assert_eq!(slot.rotations.len(), 3);
        assert_eq!(slot.depth, depths[k]);
        match &slot.state {
            SlotState::Bound(b) => {
                assert_eq!(b.slot_index, renderables[k].slot_index);
                assert_eq!(Some(b.texture.as_str()), renderables[k].texture.as_deref());
                assert_eq!(b.blend_mode, BlendMode::Normal);
                assert!(!b.premultiplied_alpha);
            }
            SlotState::Empty => panic!("slot {k} should be bound"),
        }
    }
    // The written depths are exactly 0, 0.001, 0.001 + 0.001 and strictly increase.
    assert_eq!(f32::from_bits(slots[0].depth), 0.0);
    assert_eq!(f32::from_bits(slots[1].depth), 0.001);
    assert_eq!(f32::from_bits(slots[2].depth), 0.001 + 0.001);
    assert!(f32::from_bits(slots[0].depth) < f32::from_bits(slots[1].depth));
    assert!(f32::from_bits(slots[1].depth) < f32::from_bits(slots[2].depth));

    assert!(is_empty_slot(&slots[3]));
    assert!(is_empty_slot(&slots[4]));
}

#[test]
fn missing_texture_clears_the_slot_but_counts() {
    let renderables =
        vec![renderable(0, Some("a.png")), renderable(1, None), renderable(2, Some("c.png"))];
    let rotations: Vec<Vec<Rotation>> = renderables.iter().map(rotations_for).collect();
    let depths = depth_sequence(3);
    let mut slots: Vec<MeshSlot> = (0..3).map(|_| MeshSlot::new()).collect();
    let resolvable = vec![true; 3];
    synchronize(&mut slots, &resolvable, &renderables, &rotations, &depths);

    assert!(matches!(slots[0].state, SlotState::Bound(_)));
    // The textureless renderable is consumed by its slot, which stays empty.
    assert!(is_empty_slot(&slots[1]));
    // The next renderable lands on the next slot and takes the next depth.
    match &slots[2].state {
        SlotState::Bound(b) => assert_eq!(b.slot_index, 2),
        SlotState::Empty => panic!("slot 2 should be bound"),
    }
    assert_eq!(f32::from_bits(slots[2].depth), 0.001);
}

#[test]
fn unresolvable_slot_is_skipped_without_consuming() {
    let renderables = vec![renderable(0, Some("a.png")), renderable(1, Some("b.png"))];
    let rotations: Vec<Vec<Rotation>> = renderables.iter().map(rotations_for).collect();
    let depths = depth_sequence(2);
    let mut slots: Vec<MeshSlot> = (0..3).map(|_| MeshSlot::new()).collect();
    slots[1].depth = 42f32.to_bits();
    let resolvable = vec![true, false, true];
    synchronize(&mut slots, &resolvable, &renderables, &rotations, &depths);

    assert!(matches!(slots[0].state, SlotState::Bound(_)));
    // The unresolvable slot keeps its stale contents for this frame.
    assert_eq!(f32::from_bits(slots[1].depth), 42.0);
    assert!(matches!(slots[1].state, SlotState::Empty));
    // Its renderable shifts to the next resolvable slot.
    match &slots[2].state {
        SlotState::Bound(b) => {
            assert_eq!(b.slot_index, 1);
            assert_eq!(b.texture, "b.png");
        }
        SlotState::Empty => panic!("slot 2 should be bound"),
    }
    assert_eq!(f32::from_bits(slots[2].depth), 0.001);
}

#[test]
fn clearing_keeps_the_old_depth() {
    let renderables: Vec<Renderable> = Vec::new();
    let rotations: Vec<Vec<Rotation>> = Vec::new();
    let depths: Vec<u32> = Vec::new();
    let mut slots: Vec<MeshSlot> = (0..2).map(|_| MeshSlot::new()).collect();
    slots[0].depth = 3f32.to_bits();
    slots[0].indices = vec![0, 1, 2];
    let resolvable = vec![true, true];
    synchronize(&mut slots, &resolvable, &renderables, &rotations, &depths);
    assert!(is_empty_slot(&slots[0]));
    assert_eq!(f32::from_bits(slots[0].depth), 3.0);
    assert!(is_empty_slot(&slots[1]));
}
