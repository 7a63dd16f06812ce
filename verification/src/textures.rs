//! Texture-file classification for the offline asset-export step: the
//! files of a skeleton's texture directory sorted into color, normal-map,
//! and roughness-map lists by their name suffixes.
use vstd::prelude::*;

verus! {

/// The classified texture files of one skeleton's source directories.
#[derive(Debug)]
pub struct Textures {
    pub color_textures: Vec<String>,
    pub normal_textures: Vec<String>,
    pub roughness_textures: Vec<String>,
}

impl Default for Textures {
    /// No files classified yet.
    fn default() -> (t: Textures)
        ensures
            t.color_textures@.len() == 0,
            t.normal_textures@.len() == 0,
            t.roughness_textures@.len() == 0,
    {
        Textures {
            color_textures: Vec::new(),
            normal_textures: Vec::new(),
            roughness_textures: Vec::new(),
        }
    }
}

/// `s` ends with `suffix`.
pub open spec fn has_suffix(s: Seq<char>, suffix: Seq<char>) -> bool {
    &&& suffix.len() <= s.len()
    &&& s.subrange(s.len() - suffix.len(), s.len() as int) == suffix
}

/// A file of the base texture directory that joins the color list.
pub open spec fn is_color_name(s: Seq<char>) -> bool {
    has_suffix(s, ".png"@)
}

/// A file of the maps directory that joins the normal-map list.
pub open spec fn is_normal_name(s: Seq<char>) -> bool {
    has_suffix(s, "_n.png"@)
}

/// A file of the maps directory that joins the roughness-map list.
pub open spec fn is_roughness_name(s: Seq<char>) -> bool {
    has_suffix(s, "_r.png"@)
}

/// The color files of the base directory, in directory order.
pub open spec fn color_selection(files: Seq<Seq<char>>) -> Seq<Seq<char>> {
    files.filter(|s: Seq<char>| is_color_name(s))
}

/// The normal-map files of the maps directory, in directory order.
pub open spec fn normal_selection(files: Seq<Seq<char>>) -> Seq<Seq<char>> {
    files.filter(|s: Seq<char>| is_normal_name(s))
}

/// The roughness-map files of the maps directory, in directory order.
pub open spec fn roughness_selection(files: Seq<Seq<char>>) -> Seq<Seq<char>> {
    files.filter(|s: Seq<char>| is_roughness_name(s))
}

/// Whether `name` ends with `suffix`, checked character by character.
pub fn ends_with(name: &str, suffix: &str) -> (b: bool)
    ensures
        b == has_suffix(name@, suffix@),
{
    let n = name.unicode_len();
    let m = suffix.unicode_len();
    if m > n {
        return false;
    }
    let mut i: usize = 0;
    while i < m
        invariant
            m <= n,
            n == name@.len(),
            m == suffix@.len(),
            i <= m,
            forall|j: int| 0 <= j < i ==> name@[n - m + j] == suffix@[j],
        decreases m - i,
    {
        let c1 = name.get_char(n - m + i);
        let c2 = suffix.get_char(i);
        if c1 != c2 {
            proof {
                if has_suffix(name@, suffix@) {
                    assert(name@.subrange(n - m, n as int)[i as int] == suffix@[i as int]);
                }
            }
            return false;
        }
        i = i + 1;
    }
    proof {
        assert(name@.subrange(n - m, n as int) =~= suffix@);
    }
    true
}

/// Classify the files of the base texture directory and of its maps
/// subdirectory, each given as full paths in directory order: every base
/// file with the color suffix joins the color list, and every maps file
/// with the normal-map or roughness-map suffix joins that list.
pub fn collect_textures(base_files: &Vec<String>, map_files: &Vec<String>) -> (t: Textures)
    ensures
        t.color_textures.deep_view() == color_selection(base_files.deep_view()),
        t.normal_textures.deep_view() == normal_selection(map_files.deep_view()),
        t.roughness_textures.deep_view() == roughness_selection(map_files.deep_view()),
{
    let mut t = Textures::default();
    let mut i: usize = 0;
    proof {
        assert(base_files.deep_view().take(0) =~= Seq::<Seq<char>>::empty());
        assert(t.color_textures.deep_view() =~= color_selection(base_files.deep_view().take(0)));
    }
    while i < base_files.len()
        invariant
            i <= base_files@.len(),
            base_files.deep_view().len() == base_files@.len(),
            t.color_textures.deep_view() == color_selection(base_files.deep_view().take(i as int)),
            t.normal_textures@.len() == 0,
            t.roughness_textures@.len() == 0,
        decreases base_files@.len() - i,
    {
        let ghost before = t.color_textures.deep_view();
        if ends_with(base_files[i].as_str(), ".png") {
            t.color_textures.push(base_files[i].clone());
            proof {
                assert(t.color_textures.deep_view() =~= before.push(base_files.deep_view()[i as int]));
            }
        }
        proof {
            lemma_selection_step(base_files.deep_view(), i as int);
        }
        i = i + 1;
    }
    proof {
        assert(base_files.deep_view().take(base_files@.len() as int) =~= base_files.deep_view());
    }
    let mut j: usize = 0;
    proof {
        assert(map_files.deep_view().take(0) =~= Seq::<Seq<char>>::empty());
    }
    while j < map_files.len()
        invariant
            j <= map_files@.len(),
            map_files.deep_view().len() == map_files@.len(),
            t.color_textures.deep_view() == color_selection(base_files.deep_view()),
            t.normal_textures.deep_view() == normal_selection(map_files.deep_view().take(j as int)),
            t.roughness_textures.deep_view() == roughness_selection(
                map_files.deep_view().take(j as int),
            ),
        decreases map_files@.len() - j,
    {
        let ghost before_n = t.normal_textures.deep_view();
        let ghost before_r = t.roughness_textures.deep_view();
        if ends_with(map_files[j].as_str(), "_n.png") {
            t.normal_textures.push(map_files[j].clone());
            proof {
                assert(t.normal_textures.deep_view() =~= before_n.push(map_files.deep_view()[j as int]));
            }
        } else if ends_with(map_files[j].as_str(), "_r.png") {
            t.roughness_textures.push(map_files[j].clone());
            proof {
                assert(t.roughness_textures.deep_view() =~= before_r.push(map_files.deep_view()[j as int]));
            }
        }
        proof {
            assert(map_files.deep_view()[j as int] == map_files@[j as int]@);
            lemma_map_kinds_exclusive(map_files.deep_view()[j as int]);
            lemma_selection_step(map_files.deep_view(), j as int);
        }
        j = j + 1;
    }
    proof {
        assert(map_files.deep_view().take(map_files@.len() as int) =~= map_files.deep_view());
    }
    t
}

/// Walking one more file extends each selection by that file exactly when
/// its suffix matches.
proof fn lemma_selection_step(files: Seq<Seq<char>>, i: int)
    requires
        0 <= i < files.len(),
    ensures
        color_selection(files.take(i + 1)) == if is_color_name(files[i]) {
            color_selection(files.take(i)).push(files[i])
        } else {
            color_selection(files.take(i))
        },
        normal_selection(files.take(i + 1)) == if is_normal_name(files[i]) {
            normal_selection(files.take(i)).push(files[i])
        } else {
            normal_selection(files.take(i))
        },
        roughness_selection(files.take(i + 1)) == if is_roughness_name(files[i]) {
            roughness_selection(files.take(i)).push(files[i])
        } else {
            roughness_selection(files.take(i))
        },
{
    reveal(Seq::filter);
    assert(files.take(i + 1).drop_last() =~= files.take(i));
    assert(files.take(i + 1).last() == files[i]);
    assert(files.take(i + 1).len() == i + 1);
}

/// No maps file joins both map lists: the two map suffixes disagree in
/// their first character, so one name cannot carry both.
pub proof fn lemma_map_kinds_exclusive(s: Seq<char>)
    ensures
        !(is_normal_name(s) && is_roughness_name(s)),
{
    reveal_strlit("_n.png");
    reveal_strlit("_r.png");
    if is_normal_name(s) && is_roughness_name(s) {
        assert(s.subrange(s.len() - 6, s.len() as int)[1] == 'n');
        assert(s.subrange(s.len() - 6, s.len() as int)[1] == 'r');
    }
}

} // verus!
