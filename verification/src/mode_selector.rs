//! The session-mode selector popup: one entry per mode (command ids 1, 2,
//! ... in mode order; 0 means dismissed), the current mode bulleted.
//! The host supplies the modes' display names and switches the mode; the
//! entries and what a choice means are decided here.
use vstd::prelude::*;
use crate::text::push_str;

verus! {

/// A mode's label as shown: bulleted when current, indented otherwise.
pub open spec fn mode_label(name: Seq<char>, current: bool) -> Seq<char> {
    if current {
        "\u{2022} "@ + name
    } else {
        "   "@ + name
    }
}

/// The menu entries: (command id, label) per mode, ids from 1.
pub fn mode_menu(names: &Vec<String>, current: usize) -> (r: Vec<(u32, String)>)
    requires
        names@.len() < u32::MAX,
    ensures
        r@.len() == names@.len(),
        forall|i: int|
            0 <= i < names@.len() ==> (#[trigger] r@[i]).0 == i + 1 && r@[i].1@ == mode_label(
                names@[i]@,
                i == current,
            ),
{
    let mut out: Vec<(u32, String)> = Vec::new();
    let mut i: usize = 0;
    while i < names.len()
        invariant
            i <= names@.len() < u32::MAX,
            out@.len() == i,
            forall|k: int|
                0 <= k < i ==> (#[trigger] out@[k]).0 == k + 1 && out@[k].1@ == mode_label(
                    names@[k]@,
                    k == current,
                ),
        decreases names.len() - i,
    {
        let mut label = String::new();
        push_str(&mut label, if i == current { "\u{2022} " } else { "   " });
        push_str(&mut label, names[i].as_str());
        out.push(((i + 1) as u32, label));
        i += 1;
    }
    out
}

/// The mode a menu choice names (its index), given the number of modes:
/// none when the menu was dismissed (0) or the id is out of range.
pub fn mode_for_selection(selected: i32, count: usize) -> (r: Option<usize>)
    ensures
        r == (if 1 <= selected && selected as int <= count {
            Some((selected - 1) as usize)
        } else {
            None
        }),
{
    if selected >= 1 && ((selected - 1) as usize) < count {
        Some((selected - 1) as usize)
    } else {
        None
    }
}

} // verus!
