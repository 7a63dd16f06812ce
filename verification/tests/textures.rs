use spine_pbr::textures::{collect_textures, ends_with, Textures};

fn strings(names: &[&str]) -> Vec<String> {
    names.iter().map(|n| String::from(*n)).collect()
}

#[test]
fn classifies_by_suffix_in_directory_order() {
    let base = strings(&["hero.png", "notes.txt", "arm.png", "hero_n.png"]);
    let maps = strings(&["hero_n.png", "hero_r.png", "stray.png", "arm_n.png"]);
    let t: Textures = collect_textures(&base, &maps);
    assert_eq!(t.color_textures, strings(&["hero.png", "arm.png", "hero_n.png"]));
    assert_eq!(t.normal_textures, strings(&["hero_n.png", "arm_n.png"]));
    assert_eq!(t.roughness_textures, strings(&["hero_r.png"]));
}

#[test]
fn empty_directories_classify_to_nothing() {
    let t = collect_textures(&Vec::new(), &Vec::new());
    assert!(t.color_textures.is_empty());
    assert!(t.normal_textures.is_empty());
    assert!(t.roughness_textures.is_empty());
}

#[test]
fn suffix_checks_cover_the_edges() {
    assert!(ends_with(".png", ".png"));
    assert!(!ends_with("png", ".png"));
    assert!(!ends_with("", ".png"));
    assert!(ends_with("a_n.png", ".png"));
    assert!(ends_with("a_n.png", "_n.png"));
    assert!(!ends_with("a_n.png", "_r.png"));
    assert!(ends_with("anything", ""));
}

#[test]
fn bare_map_suffixes_still_classify() {
    let maps = strings(&["_n.png", "_r.png", ".png"]);
    let t = collect_textures(&Vec::new(), &maps);
    assert_eq!(t.normal_textures, strings(&["_n.png"]));
    assert_eq!(t.roughness_textures, strings(&["_r.png"]));
    assert!(t.color_textures.is_empty());
}
