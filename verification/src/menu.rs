//! The Extensions → FastTrackStudio submenu.
//!
//! The entries (command name and label of every action shown in the menu)
//! are set once at startup. When REAPER initialises its "Main extensions"
//! menu, each entry's command is looked up by its registered name (`_`
//! and the command name) and the resolved ones become items of a
//! "FastTrackStudio" submenu, placed after a separator when the menu
//! already holds items. The host talks to REAPER's menu API; which items
//! go where is decided here.
use vstd::prelude::*;
use crate::text::{push_str, str_eq};

verus! {

/// A menu entry: the action's command name and its label.
pub struct MenuEntry {
    pub command_name: String,
    pub label: String,
}

/// The entries, once set.
pub struct MenuEntries {
    entries: Option<Vec<MenuEntry>>,
}

pub open spec fn entry_view(e: MenuEntry) -> (Seq<char>, Seq<char>) {
    (e.command_name@, e.label@)
}

impl View for MenuEntries {
    type V = Option<Seq<(Seq<char>, Seq<char>)>>;

    closed spec fn view(&self) -> Option<Seq<(Seq<char>, Seq<char>)>> {
        match self.entries {
            Some(v) => Some(v@.map_values(|e: MenuEntry| entry_view(e))),
            None => None,
        }
    }
}

impl MenuEntries {
    /// No entries set yet.
    pub fn new() -> (r: MenuEntries)
        ensures
            r@ is None,
    {
        MenuEntries { entries: None }
    }
}

/// The (command name, label) of every action, given as (command name,
/// label, shown in the menu), that is shown in the menu, in order.
pub open spec fn listed_of(actions: Seq<(Seq<char>, Seq<char>, bool)>) -> Seq<(Seq<char>, Seq<char>)>
    decreases actions.len(),
{
    if actions.len() == 0 {
        Seq::empty()
    } else {
        let rest = listed_of(actions.drop_last());
        if actions.last().2 {
            rest.push((actions.last().0, actions.last().1))
        } else {
            rest
        }
    }
}

/// The menu entries of the registered actions: the (command name, label)
/// of each action shown in the menu, in registration order.
pub fn listed_in_menu(actions: &Vec<(String, String, bool)>) -> (r: Vec<(String, String)>)
    ensures
        r@.map_values(|e: (String, String)| (e.0@, e.1@)) == listed_of(
            actions@.map_values(|a: (String, String, bool)| (a.0@, a.1@, a.2)),
        ),
{
    let ghost view = actions@.map_values(|a: (String, String, bool)| (a.0@, a.1@, a.2));
    let mut out: Vec<(String, String)> = Vec::new();
    let mut i: usize = 0;
    while i < actions.len()
        invariant
            i <= actions@.len(),
            view == actions@.map_values(|a: (String, String, bool)| (a.0@, a.1@, a.2)),
            out@.map_values(|e: (String, String)| (e.0@, e.1@)) == listed_of(
                view.subrange(0, i as int),
            ),
        decreases actions.len() - i,
    {
        proof {
            assert(view.subrange(0, i + 1).drop_last() =~= view.subrange(0, i as int));
            assert(view.subrange(0, i + 1).last() == view[i as int]);
        }
        if actions[i].2 {
            let ghost before = out@;
            out.push((actions[i].0.clone(), actions[i].1.clone()));
            assert(out@.map_values(|e: (String, String)| (e.0@, e.1@)) =~= before.map_values(
                |e: (String, String)| (e.0@, e.1@),
            ).push((actions@[i as int].0@, actions@[i as int].1@)));
        }
        i += 1;
    }
    assert(view.subrange(0, actions@.len() as int) =~= view);
    out
}

/// Set the entries from (command name, label) pairs. Only the first call
/// takes effect; later ones are ignored.
pub fn set_menu_entries(store: &mut MenuEntries, entries: Vec<(String, String)>)
    ensures
        old(store)@ is None ==> final(store)@ == Some(
            entries@.map_values(|e: (String, String)| (e.0@, e.1@)),
        ),
        old(store)@ is Some ==> final(store)@ == old(store)@,
{
    if store.entries.is_some() {
        return;
    }
    let mut out: Vec<MenuEntry> = Vec::new();
    let mut entries = entries;
    let ghost src = entries@;
    let mut rev: Vec<MenuEntry> = Vec::new();
    // move the pairs out from the back, then restore their order
    while entries.len() > 0
        invariant
            entries@.len() + rev@.len() == src.len(),
            entries@ == src.subrange(0, entries@.len() as int),
            forall|k: int|
                0 <= k < rev@.len() ==> entry_view(#[trigger] rev@[k]) == (
                    src[src.len() - 1 - k].0@,
                    src[src.len() - 1 - k].1@,
                ),
        decreases entries.len(),
    {
        let (command_name, label) = entries.pop().unwrap();
        rev.push(MenuEntry { command_name, label });
    }
    while rev.len() > 0
        invariant
            out@.len() + rev@.len() == src.len(),
            forall|k: int|
                0 <= k < rev@.len() ==> entry_view(#[trigger] rev@[k]) == (
                    src[src.len() - 1 - k].0@,
                    src[src.len() - 1 - k].1@,
                ),
            forall|k: int|
                0 <= k < out@.len() ==> entry_view(#[trigger] out@[k]) == (src[k].0@, src[k].1@),
        decreases rev.len(),
    {
        let e = rev.pop().unwrap();
        out.push(e);
    }
    assert(out@.map_values(|e: MenuEntry| entry_view(e)) =~= src.map_values(
        |e: (String, String)| (e.0@, e.1@),
    ));
    store.entries = Some(out);
}

/// The menu hook.
pub struct FtsMenuHook;

/// The name a command is looked up by: `_` and the command name.
pub open spec fn lookup_name_of(command_name: Seq<char>) -> Seq<char> {
    "_"@ + command_name
}

impl FtsMenuHook {
    /// Whether a menu callback populates the submenu: only at menu
    /// initialisation of "Main extensions", with entries set and not empty.
    pub fn populates(store: &MenuEntries, is_init: bool, menu_id: &str) -> (r: bool)
        ensures
            r == (is_init && menu_id@ == "Main extensions"@ && (store@ matches Some(v) && v.len()
                > 0)),
    {
        if !is_init || !str_eq(menu_id, "Main extensions") {
            return false;
        }
        match &store.entries {
            Some(v) => v.len() > 0,
            None => false,
        }
    }

    /// The names to look each entry's command up by, in entry order.
    pub fn lookup_names(store: &MenuEntries) -> (r: Vec<String>)
        ensures
            store@ is None ==> r@.len() == 0,
            store@ matches Some(v) ==> r@.len() == v.len() && forall|i: int|
                0 <= i < v.len() ==> #[trigger] r@[i]@ == lookup_name_of(v[i].0),
    {
        let mut out: Vec<String> = Vec::new();
        match &store.entries {
            None => out,
            Some(v) => {
                let mut i: usize = 0;
                while i < v.len()
                    invariant
                        i <= v@.len(),
                        out@.len() == i,
                        forall|k: int|
                            0 <= k < i ==> #[trigger] out@[k]@ == lookup_name_of(v@[k].command_name@),
                    decreases v.len() - i,
                {
                    let mut s = String::new();
                    push_str(&mut s, "_");
                    push_str(&mut s, v[i].command_name.as_str());
                    out.push(s);
                    i += 1;
                }
                out
            },
        }
    }

    /// The submenu items: (command id, label) of every entry whose command
    /// resolved, in entry order; entries not registered yet are skipped.
    pub fn items(store: &MenuEntries, resolved: &Vec<Option<u32>>) -> (r: Vec<(u32, String)>)
        ensures
            store@ is None ==> r@.len() == 0,
            store@ matches Some(v) ==> r@.map_values(|x: (u32, String)| (x.0, x.1@))
                == resolved_items(v, resolved@),
    {
        let mut out: Vec<(u32, String)> = Vec::new();
        match &store.entries {
            None => out,
            Some(v) => {
                let ghost vv = v@.map_values(|e: MenuEntry| entry_view(e));
                let mut i: usize = 0;
                while i < v.len()
                    invariant
                        i <= v@.len(),
                        vv == v@.map_values(|e: MenuEntry| entry_view(e)),
                        out@.map_values(|x: (u32, String)| (x.0, x.1@)) == resolved_items(
                            vv.subrange(0, i as int),
                            resolved@,
                        ),
                    decreases v.len() - i,
                {
                    proof {
                        assert(vv.subrange(0, i + 1).drop_last() =~= vv.subrange(0, i as int));
                    }
                    if i < resolved.len() {
                        match resolved[i] {
                            Some(id) => {
                                let ghost before = out@;
                                out.push((id, v[i].label.clone()));
                                assert(out@.map_values(|x: (u32, String)| (x.0, x.1@)) =~= before.map_values(
                                    |x: (u32, String)| (x.0, x.1@),
                                ).push((id, vv[i as int].1)));
                            },
                            None => {},
                        }
                    }
                    i += 1;
                }
                assert(vv.subrange(0, v@.len() as int) =~= vv);
                out
            },
        }
    }

    /// Whether a separator goes before the submenu: when the menu already
    /// holds items.
    pub fn needs_separator(existing_items: i32) -> (r: bool)
        ensures
            r == (existing_items > 0),
    {
        existing_items > 0
    }

    /// The submenu's label.
    pub fn submenu_label() -> (r: &'static str)
        ensures
            r@ == "FastTrackStudio"@,
    {
        "FastTrackStudio"
    }
}

/// The (command id, label) of each entry whose lookup resolved.
pub open spec fn resolved_items(entries: Seq<(Seq<char>, Seq<char>)>, resolved: Seq<Option<u32>>) -> Seq<
    (u32, Seq<char>),
>
    decreases entries.len(),
{
    if entries.len() == 0 {
        Seq::empty()
    } else {
        let k = entries.len() - 1;
        let rest = resolved_items(entries.drop_last(), resolved);
        if k < resolved.len() && resolved[k] is Some {
            rest.push((resolved[k]->0, entries.last().1))
        } else {
            rest
        }
    }
}

} // verus!
