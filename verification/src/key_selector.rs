//! The key selector popup: every major and minor key, majors first, a
//! separator between them, and the key in force at the edit cursor marked
//! with a bullet. Choosing an entry sets that key at the edit cursor.
//!
//! The host shows the menu and writes the key; the entries and what a
//! choice means are decided here.
use vstd::prelude::*;
use crate::text::{push_str, str_eq};

verus! {

/// The major keys offered, in circle-of-fifths order out from C.
pub open spec fn majors() -> Seq<Seq<char>> {
    seq![
        "C"@, "G"@, "D"@, "A"@, "E"@, "B"@, "F#"@, "C#"@, "F"@, "Bb"@, "Eb"@, "Ab"@, "Db"@, "Gb"@,
        "Cb"@,
    ]
}

/// The minor keys offered, in circle-of-fifths order out from A.
pub open spec fn minors() -> Seq<Seq<char>> {
    seq![
        "A"@, "E"@, "B"@, "F#"@, "C#"@, "G#"@, "D#"@, "A#"@, "D"@, "G"@, "C"@, "F"@, "Bb"@, "Eb"@,
        "Ab"@,
    ]
}

/// `<root> major` or `<root> minor`.
pub open spec fn key_label(root: Seq<char>, major: bool) -> Seq<char> {
    root + if major {
        " major"@
    } else {
        " minor"@
    }
}

/// A label as shown: bulleted when it names the current key, indented
/// otherwise.
pub open spec fn shown_label(label: Seq<char>, current: Option<Seq<char>>) -> Seq<char> {
    if current == Some(label) {
        "\u{2022} "@ + label
    } else {
        "   "@ + label
    }
}

/// A menu line.
pub enum KeyMenuLine {
    /// A choosable key: its command id (1-based) and its shown label.
    Item { id: u32, label: String },
    Separator,
}

pub open spec fn line_view(l: KeyMenuLine) -> Option<(u32, Seq<char>)> {
    match l {
        KeyMenuLine::Item { id, label } => Some((id, label@)),
        KeyMenuLine::Separator => None,
    }
}

/// The menu: the majors (ids 1 to 15), a separator, then the minors (ids
/// 16 to 30).
pub open spec fn key_menu_view(current: Option<Seq<char>>) -> Seq<Option<(u32, Seq<char>)>> {
    Seq::new(
        31,
        |k: int|
            if k < 15 {
                Some(((k + 1) as u32, shown_label(key_label(majors()[k], true), current)))
            } else if k == 15 {
                None
            } else {
                Some((k as u32, shown_label(key_label(minors()[k - 16], false), current)))
            },
    )
}

/// The root of major key `i`.
fn major_root(i: usize) -> (r: &'static str)
    requires
        i < 15,
    ensures
        r@ == majors()[i as int],
{
    match i {
        0 => "C",
        1 => "G",
        2 => "D",
        3 => "A",
        4 => "E",
        5 => "B",
        6 => "F#",
        7 => "C#",
        8 => "F",
        9 => "Bb",
        10 => "Eb",
        11 => "Ab",
        12 => "Db",
        13 => "Gb",
        _ => "Cb",
    }
}

/// The root of minor key `i`.
fn minor_root(i: usize) -> (r: &'static str)
    requires
        i < 15,
    ensures
        r@ == minors()[i as int],
{
    match i {
        0 => "A",
        1 => "E",
        2 => "B",
        3 => "F#",
        4 => "C#",
        5 => "G#",
        6 => "D#",
        7 => "A#",
        8 => "D",
        9 => "G",
        10 => "C",
        11 => "F",
        12 => "Bb",
        13 => "Eb",
        _ => "Ab",
    }
}

fn shown(root: &str, major: bool, current: Option<&str>) -> (r: String)
    ensures
        r@ == shown_label(
            key_label(root@, major),
            match current {
                Some(c) => Some(c@),
                None => None,
            },
        ),
{
    let mut label = String::new();
    push_str(&mut label, root);
    push_str(&mut label, if major { " major" } else { " minor" });
    let is_current = match current {
        Some(c) => str_eq(c, label.as_str()),
        None => false,
    };
    let mut r = String::new();
    push_str(&mut r, if is_current { "\u{2022} " } else { "   " });
    push_str(&mut r, label.as_str());
    r
}

/// The menu lines, given the key in force at the cursor (formatted like the
/// labels, e.g. `F# minor`), if any.
pub fn key_menu(current: Option<&str>) -> (r: Vec<KeyMenuLine>)
    ensures
        r@.map_values(|l: KeyMenuLine| line_view(l)) == key_menu_view(
            match current {
                Some(c) => Some(c@),
                None => None,
            },
        ),
{
    let ghost cur = match current {
        Some(c) => Some(c@),
        None => None,
    };
    let ghost want = key_menu_view(cur);
    let mut out: Vec<KeyMenuLine> = Vec::new();
    let mut i: usize = 0;
    while i < 15
        invariant
            i <= 15,
            want == key_menu_view(cur),
            cur == match current {
                Some(c) => Some(c@),
                None => None::<Seq<char>>,
            },
            out@.map_values(|l: KeyMenuLine| line_view(l)) == want.subrange(0, i as int),
        decreases 15 - i,
    {
        let label = shown(major_root(i), true, current);
        let ghost before = out@;
        let ghost lv = label@;
        out.push(KeyMenuLine::Item { id: (i + 1) as u32, label });
        assert(want[i as int] == Some(((i + 1) as u32, lv)));
        assert(out@.map_values(|l: KeyMenuLine| line_view(l)) =~= before.map_values(
            |l: KeyMenuLine| line_view(l),
        ).push(Some(((i + 1) as u32, lv))));
        assert(out@.map_values(|l: KeyMenuLine| line_view(l)) =~= want.subrange(0, i + 1));
        i += 1;
    }
    let ghost before_sep = out@;
    out.push(KeyMenuLine::Separator);
    assert(out@.map_values(|l: KeyMenuLine| line_view(l)) =~= before_sep.map_values(
        |l: KeyMenuLine| line_view(l),
    ).push(None));
    assert(out@.map_values(|l: KeyMenuLine| line_view(l)) =~= want.subrange(0, 16));
    let mut j: usize = 0;
    while j < 15
        invariant
            j <= 15,
            want == key_menu_view(cur),
            cur == match current {
                Some(c) => Some(c@),
                None => None::<Seq<char>>,
            },
            out@.map_values(|l: KeyMenuLine| line_view(l)) == want.subrange(0, 16 + j),
        decreases 15 - j,
    {
        let label = shown(minor_root(j), false, current);
        let ghost before = out@;
        let ghost lv = label@;
        out.push(KeyMenuLine::Item { id: (16 + j) as u32, label });
        assert(want[16 + j] == Some(((16 + j) as u32, lv)));
        assert(out@.map_values(|l: KeyMenuLine| line_view(l)) =~= before.map_values(
            |l: KeyMenuLine| line_view(l),
        ).push(Some(((16 + j) as u32, lv))));
        assert(out@.map_values(|l: KeyMenuLine| line_view(l)) =~= want.subrange(0, 16 + j + 1));
        j += 1;
    }
    assert(want.subrange(0, 31) =~= want);
    out
}

/// The key a menu choice names: `(root, major)`. Command id 0 means the
/// menu was dismissed; ids outside the menu name nothing.
pub open spec fn key_for(selected: int) -> Option<(Seq<char>, bool)> {
    if 1 <= selected <= 15 {
        Some((majors()[selected - 1], true))
    } else if 16 <= selected <= 30 {
        Some((minors()[selected - 16], false))
    } else {
        None
    }
}

/// Computes [`key_for`].
pub fn key_for_selection(selected: i32) -> (r: Option<(&'static str, bool)>)
    ensures
        match r {
            Some((root, major)) => key_for(selected as int) == Some((root@, major)),
            None => key_for(selected as int) is None,
        },
{
    if 1 <= selected && selected <= 15 {
        Some((major_root((selected - 1) as usize), true))
    } else if 16 <= selected && selected <= 30 {
        Some((minor_root((selected - 16) as usize), false))
    } else {
        None
    }
}

/// Every key entry of the menu, chosen, names the key it shows.
pub proof fn law_menu_choice_names_its_key(current: Option<Seq<char>>, k: int)
    requires
        0 <= k < 31,
        k != 15,
    ensures
        ({
            let line = key_menu_view(current)[k];
            &&& line matches Some((id, label))
            &&& key_for(id as int) matches Some((root, major))
            &&& label == shown_label(key_label(root, major), current)
        }),
{
}

} // verus!
