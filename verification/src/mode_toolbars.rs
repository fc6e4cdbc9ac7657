//! Naming the floating toolbars of the session modes in `reaper-menu.ini`.
//!
//! Every mode that has toolbars owns three floating toolbars, numbered
//! densely in mode order (`Organize 1`, `Organize 2`, `Organize 3`,
//! `Write 1`, ...). Each of those toolbar sections gets that title and a
//! non-clickable label of the same text as its first item; a missing
//! section is added. The main toolbar gets a mode-selector button, but
//! only when the user already customised it with items of their own
//! (writing a fresh section would hide REAPER's default toolbar); a section
//! holding nothing but that button, left by an earlier run, is removed so
//! the default returns. Applying the edits once leaves nothing for the
//! next run to change.
//!
//! The host parses and writes the file; the edits are decided here, and
//! the file is written only when one of them changes something.
use vstd::prelude::*;
use crate::text::{decimal, push_decimal, push_str};

verus! {

/// Floating toolbars reserved per mode that has toolbars.
pub const TOOLBARS_PER_MODE: u32 = 3;

/// The named command of the mode selector, as `reaper-menu.ini` refers to
/// it.
pub const MODE_SELECTOR_NAMED_COMMAND: &'static str = "_FTS_MODE_SELECTOR";

/// A floating toolbar's section: typed for toolbars 1 to 16, otherwise by
/// the header REAPER writes (`Floating toolbar N`).
pub enum ToolbarSection {
    Floating(u32),
    Named(String),
}

pub open spec fn section_view(s: ToolbarSection) -> Result<u32, Seq<char>> {
    match s {
        ToolbarSection::Floating(n) => Ok(n),
        ToolbarSection::Named(h) => Err(h@),
    }
}

/// The section of floating toolbar `n` (1-based).
pub open spec fn toolbar_section_of(n: nat) -> Result<u32, Seq<char>> {
    if 1 <= n <= 16 {
        Ok(n as u32)
    } else {
        Err("Floating toolbar "@ + decimal(n))
    }
}

/// Computes [`toolbar_section_of`].
pub fn floating_toolbar(n: u32) -> (r: ToolbarSection)
    ensures
        section_view(r) == toolbar_section_of(n as nat),
{
    if 1 <= n && n <= 16 {
        ToolbarSection::Floating(n)
    } else {
        let mut h = String::new();
        push_str(&mut h, "Floating toolbar ");
        push_decimal(&mut h, n as u64);
        ToolbarSection::Named(h)
    }
}

/// The toolbar titles, in slot order, of modes given as (display name,
/// has toolbars).
pub open spec fn toolbar_titles(modes: Seq<(Seq<char>, bool)>) -> Seq<Seq<char>>
    decreases modes.len(),
{
    if modes.len() == 0 {
        Seq::empty()
    } else {
        let rest = toolbar_titles(modes.drop_last());
        let (name, has) = modes.last();
        if has {
            rest + seq![name + " 1"@, name + " 2"@, name + " 3"@]
        } else {
            rest
        }
    }
}

pub open spec fn mode_views(modes: Seq<(String, bool)>) -> Seq<(Seq<char>, bool)> {
    modes.map_values(|m: (String, bool)| (m.0@, m.1))
}

/// The desired (section, title) of every mode toolbar: slot `k` (from 0)
/// is floating toolbar `k + 1`.
pub fn desired_titles(modes: &Vec<(String, bool)>) -> (r: Vec<(ToolbarSection, String)>)
    requires
        3 * modes@.len() < u32::MAX,
    ensures
        r@.len() == toolbar_titles(mode_views(modes@)).len(),
        forall|k: int|
            0 <= k < r@.len() ==> section_view((#[trigger] r@[k]).0) == toolbar_section_of(
                (k + 1) as nat,
            ) && r@[k].1@ == toolbar_titles(mode_views(modes@))[k],
{
    let mut out: Vec<(ToolbarSection, String)> = Vec::new();
    let mut n: u32 = 0;
    let mut i: usize = 0;
    while i < modes.len()
        invariant
            i <= modes@.len(),
            3 * modes@.len() < u32::MAX,
            n as int == out@.len(),
            n <= 3 * i,
            out@.len() == toolbar_titles(mode_views(modes@.subrange(0, i as int))).len(),
            forall|k: int|
                0 <= k < out@.len() ==> section_view((#[trigger] out@[k]).0) == toolbar_section_of(
                    (k + 1) as nat,
                ) && out@[k].1@ == toolbar_titles(mode_views(modes@.subrange(0, i as int)))[k],
        decreases modes.len() - i,
    {
        let ghost pre = mode_views(modes@.subrange(0, i as int));
        proof {
            assert(mode_views(modes@.subrange(0, i + 1)).drop_last() =~= pre);
        }
        if modes[i].1 {
            let mut slot: u32 = 1;
            while slot <= TOOLBARS_PER_MODE
                invariant
                    1 <= slot <= 4,
                    n as int == out@.len(),
                    n + 4 - slot <= 3 * (i + 1),
                    3 * modes@.len() < u32::MAX,
                    i < modes@.len(),
                    out@.len() == toolbar_titles(pre).len() + slot - 1,
                    forall|k: int|
                        0 <= k < out@.len() ==> section_view((#[trigger] out@[k]).0)
                            == toolbar_section_of((k + 1) as nat),
                    forall|k: int|
                        0 <= k < toolbar_titles(pre).len() ==> (#[trigger] out@[k]).1@
                            == toolbar_titles(pre)[k],
                    slot > 1 ==> out@[toolbar_titles(pre).len() as int].1@ == modes@[i as int].0@
                        + " "@ + decimal(1),
                    slot > 2 ==> out@[toolbar_titles(pre).len() + 1int].1@ == modes@[i as int].0@
                        + " "@ + decimal(2),
                    slot > 3 ==> out@[toolbar_titles(pre).len() + 2int].1@ == modes@[i as int].0@
                        + " "@ + decimal(3),
                decreases 4 - slot,
            {
                n = n + 1;
                let mut title = String::new();
                push_str(&mut title, modes[i].0.as_str());
                push_str(&mut title, " ");
                push_decimal(&mut title, slot as u64);
                out.push((floating_toolbar(n), title));
                slot = slot + 1;
            }
            proof {
                reveal_strlit(" 1");
                reveal_strlit(" 2");
                reveal_strlit(" 3");
                reveal_strlit(" ");
                let name = modes@[i as int].0@;
                assert(decimal(1) == seq!['1']);
                assert(decimal(2) == seq!['2']);
                assert(decimal(3) == seq!['3']);
                assert(name + " "@ + decimal(1) =~= name + " 1"@);
                assert(name + " "@ + decimal(2) =~= name + " 2"@);
                assert(name + " "@ + decimal(3) =~= name + " 3"@);
                let t = toolbar_titles(mode_views(modes@.subrange(0, i + 1)));
                assert(t =~= toolbar_titles(pre) + seq![name + " 1"@, name + " 2"@, name + " 3"@]);
                let base: int = toolbar_titles(pre).len() as int;
                assert(out@[base as int].1@ == name + " "@ + decimal(1));
                assert(out@[base + 1int].1@ == name + " "@ + decimal(2));
                assert(out@[base + 2int].1@ == name + " "@ + decimal(3));
                assert forall|k: int| 0 <= k < out@.len() implies (#[trigger] out@[k]).1@ == t[k] by {
                    if k >= base {
                        assert(k == base || k == base + 1 || k == base + 2);
                    }
                }
            }
        } else {
            proof {
                assert(toolbar_titles(mode_views(modes@.subrange(0, i + 1))) =~= toolbar_titles(pre));
            }
        }
        i += 1;
    }
    assert(modes@.subrange(0, modes@.len() as int) =~= modes@);
    out
}

/// A section's first item, as far as the label check reads it.
pub enum FirstItem {
    /// The section has no items.
    Missing,
    /// A label with this text.
    Label(String),
    /// Any other item.
    Other,
}

/// How the first-item label of a toolbar section is made right.
#[derive(Debug, Clone, Copy, PartialEq, Eq, Structural)]
pub enum LabelEdit {
    /// It already is a label with the text.
    Keep,
    /// Replace the label at position 0.
    ReplaceFirst,
    /// Insert a label before the first item.
    InsertFirst,
}

/// Make sure the section's first item is a label with `text`.
pub fn ensure_label_first(first: &FirstItem, text: &str) -> (r: LabelEdit)
    ensures
        r == match first {
            FirstItem::Label(t) => if t@ == text@ {
                LabelEdit::Keep
            } else {
                LabelEdit::ReplaceFirst
            },
            _ => LabelEdit::InsertFirst,
        },
{
    match first {
        FirstItem::Label(t) => if crate::text::str_eq(t.as_str(), text) {
            LabelEdit::Keep
        } else {
            LabelEdit::ReplaceFirst
        },
        _ => LabelEdit::InsertFirst,
    }
}

/// A mode toolbar section as read: its title and first item.
pub struct SectionState {
    pub title: Option<String>,
    pub first: FirstItem,
}

/// The edit of one mode toolbar section.
#[derive(Debug, Clone, Copy, PartialEq, Eq, Structural)]
pub enum SectionEdit {
    /// Add the section, titled and holding only the label.
    Add,
    /// Set the title when it differs; fix the first label.
    Update { retitle: bool, label: LabelEdit },
}

/// The edit making a section (if present) carry `title`.
pub fn section_edit(existing: Option<&SectionState>, title: &str) -> (r: SectionEdit)
    ensures
        r == section_edit_of(
            match existing {
                Some(s) => Some(state_view(*s)),
                None => None,
            },
            title@,
        ),
        match existing {
            None => r == SectionEdit::Add,
            Some(s) => r == (SectionEdit::Update {
                retitle: !(s.title matches Some(t) && t@ == title@),
                label: match s.first {
                    FirstItem::Label(t) => if t@ == title@ {
                        LabelEdit::Keep
                    } else {
                        LabelEdit::ReplaceFirst
                    },
                    _ => LabelEdit::InsertFirst,
                },
            }),
        },
{
    match existing {
        None => SectionEdit::Add,
        Some(s) => {
            let same = match &s.title {
                Some(t) => crate::text::str_eq(t.as_str(), title),
                None => false,
            };
            SectionEdit::Update { retitle: !same, label: ensure_label_first(&s.first, title) }
        },
    }
}

/// Whether an edit changes the file.
pub fn changes(e: SectionEdit) -> (r: bool)
    ensures
        r == match e {
            SectionEdit::Add => true,
            SectionEdit::Update { retitle, label } => retitle || label != LabelEdit::Keep,
        },
{
    match e {
        SectionEdit::Add => true,
        SectionEdit::Update { retitle, label } => retitle || !matches!(label, LabelEdit::Keep),
    }
}

/// The edit of the main toolbar.
#[derive(Debug, Clone, Copy, PartialEq, Eq, Structural)]
pub enum MainToolbarEdit {
    /// Leave it as it is.
    Keep,
    /// Remove the section (it held only the selector).
    RemoveSection,
    /// Append the selector button (titled `Mode`, shown as text).
    AppendSelector,
}

/// The main toolbar edit, given, per item of the `[Main toolbar]` section
/// (when present), whether it is the mode-selector command.
pub open spec fn main_toolbar_edit_of(items: Option<Seq<bool>>) -> MainToolbarEdit {
    match items {
        None => MainToolbarEdit::Keep,
        Some(v) => if v.len() == 1 && v[0] {
            MainToolbarEdit::RemoveSection
        } else if v.len() == 0 || v.contains(true) {
            MainToolbarEdit::Keep
        } else {
            MainToolbarEdit::AppendSelector
        },
    }
}

/// The `[Main toolbar]` section, as in [`main_toolbar_edit_of`], after
/// edit `e`.
pub open spec fn main_toolbar_after(items: Option<Seq<bool>>, e: MainToolbarEdit) -> Option<
    Seq<bool>,
> {
    match e {
        MainToolbarEdit::Keep => items,
        MainToolbarEdit::RemoveSection => None,
        MainToolbarEdit::AppendSelector => match items {
            Some(v) => Some(v.push(true)),
            None => None,
        },
    }
}

/// The main toolbar edit. A missing section stays missing and an empty one
/// stays empty (neither is a toolbar the user customised); a section
/// holding only the selector is removed; the selector is appended to a
/// customised toolbar that lacks it.
pub fn main_toolbar_edit(items: Option<&Vec<bool>>) -> (r: MainToolbarEdit)
    ensures
        r == main_toolbar_edit_of(
            match items {
                Some(v) => Some(v@),
                None => None,
            },
        ),
{
    match items {
        None => MainToolbarEdit::Keep,
        Some(v) => {
            if v.len() == 1 && v[0] {
                return MainToolbarEdit::RemoveSection;
            }
            if v.len() == 0 {
                return MainToolbarEdit::Keep;
            }
            let mut i: usize = 0;
            while i < v.len()
                invariant
                    i <= v@.len(),
                    !(v@.len() == 1 && v@[0]),
                    v@.len() > 0,
                    items == Some(v),
                    forall|k: int| 0 <= k < i ==> !v@[k],
                decreases v.len() - i,
            {
                if v[i] {
                    assert(v@[i as int] == true);
                    assert(v@.contains(true));
                    return MainToolbarEdit::Keep;
                }
                i += 1;
            }
            assert(!v@.contains(true)) by {
                if v@.contains(true) {
                    let k = choose|k: int| 0 <= k < v@.len() && v@[k] == true;
                    assert(!v@[k]);
                }
            }
            MainToolbarEdit::AppendSelector
        },
    }
}

/// A mode toolbar section as [`section_edit`] reads it: its title, and the
/// text of its first item when that is a label.
pub open spec fn state_view(s: SectionState) -> (Option<Seq<char>>, Option<Seq<char>>) {
    (
        match s.title {
            Some(t) => Some(t@),
            None => None,
        },
        match s.first {
            FirstItem::Label(t) => Some(t@),
            _ => None,
        },
    )
}

/// The edit making a section (if present) carry `title`.
pub open spec fn section_edit_of(
    existing: Option<(Option<Seq<char>>, Option<Seq<char>>)>,
    title: Seq<char>,
) -> SectionEdit {
    match existing {
        None => SectionEdit::Add,
        Some(s) => SectionEdit::Update {
            retitle: s.0 != Some(title),
            label: match s.1 {
                Some(t) => if t == title {
                    LabelEdit::Keep
                } else {
                    LabelEdit::ReplaceFirst
                },
                None => LabelEdit::InsertFirst,
            },
        },
    }
}

/// A section, as in [`section_edit_of`], after edit `e` for `title`: an
/// added section holds only the label; an update sets the title when asked
/// and puts the label first when it was not there.
pub open spec fn section_after(
    existing: Option<(Option<Seq<char>>, Option<Seq<char>>)>,
    title: Seq<char>,
    e: SectionEdit,
) -> Option<(Option<Seq<char>>, Option<Seq<char>>)> {
    match e {
        SectionEdit::Add => Some((Some(title), Some(title))),
        SectionEdit::Update { retitle, label } => match existing {
            Some(s) => Some(
                (
                    if retitle {
                        Some(title)
                    } else {
                        s.0
                    },
                    if label == LabelEdit::Keep {
                        s.1
                    } else {
                        Some(title)
                    },
                ),
            ),
            None => Some((Some(title), Some(title))),
        },
    }
}

/// Whether a section edit changes the file.
pub open spec fn changes_of(e: SectionEdit) -> bool {
    match e {
        SectionEdit::Add => true,
        SectionEdit::Update { retitle, label } => retitle || label != LabelEdit::Keep,
    }
}

/// Renaming settles: once a section's edit was applied, the edit asked for
/// on the next run changes nothing; once the main toolbar's edit was
/// applied, the next run keeps it. So a second rename writes nothing.
pub proof fn law_rename_settles(
    existing: Option<(Option<Seq<char>>, Option<Seq<char>>)>,
    title: Seq<char>,
    items: Option<Seq<bool>>,
)
    ensures
        !changes_of(
            section_edit_of(section_after(existing, title, section_edit_of(existing, title)), title),
        ),
        main_toolbar_edit_of(main_toolbar_after(items, main_toolbar_edit_of(items)))
            == MainToolbarEdit::Keep,
{
    if let Some(v) = items {
        if main_toolbar_edit_of(items) == MainToolbarEdit::AppendSelector {
            let w = v.push(true);
            assert(w[w.len() - 1] == true);
            assert(w.contains(true));
        }
    }
}

} // verus!
