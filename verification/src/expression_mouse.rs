//! The user's mouse-modifier map (`reaper-mouse.ini`), read for the
//! expression editor.
//!
//! The ini holds one section per mouse context the user changed; each entry
//! `mm_<mods>=<behaviour id> ...` binds a modifier combination to a
//! behaviour. Only the MIDI contexts (`MM_CTX_MIDI*`) matter to the editor,
//! and combinations with the Win/Super bit (`mods >= 8`) have no editor
//! slot. This module reads those bindings out of the text; the host maps
//! each (context, behaviour) pair onto the editor action of the same
//! meaning.
use vstd::prelude::*;
use crate::text::{
    char_pred, chars_of, find_char_range, find_first, find_ws_range, parse_unsigned,
    parse_unsigned_range, range_starts_with, split, split_str, starts_with,
    strip_trailing_range, string_of, trim, trim_end_by, trim_range, views, ws_pred,
};

verus! {

/// One binding read from a MIDI context section.
pub struct MouseIniBinding {
    /// The section name, e.g. `MM_CTX_MIDI_PIANOROLL`.
    pub section: String,
    /// The modifier bits of `mm_<mods>` (below 8).
    pub mods: u8,
    /// The behaviour id: the first token of the value.
    pub behavior_id: u32,
}

pub open spec fn binding_view(b: MouseIniBinding) -> (Seq<char>, nat, nat) {
    (b.section@, b.mods as nat, b.behavior_id as nat)
}

pub open spec fn midi_ctx_prefix() -> Seq<char> {
    seq!['M', 'M', '_', 'C', 'T', 'X', '_', 'M', 'I', 'D', 'I']
}

pub open spec fn key_prefix() -> Seq<char> {
    seq!['m', 'm', '_']
}

/// The section a header line `[name]` (already trimmed) opens: the name
/// without trailing `]`s, when it is a MIDI context; otherwise none.
pub open spec fn header_section(t: Seq<char>) -> Option<Seq<char>> {
    let name = trim_end_by(t.drop_first(), char_pred(']'));
    if starts_with(name, midi_ctx_prefix()) {
        Some(name)
    } else {
        None
    }
}

/// The first whitespace-separated token of a trimmed, non-empty value.
pub open spec fn first_token(t: Seq<char>) -> Seq<char> {
    match find_first(t, ws_pred()) {
        Some(w) => t.take(w as int),
        None => t,
    }
}

/// The (modifier bits, behaviour id) of an entry line (already trimmed):
/// `mm_<mods>=<id> ...` with `mods` a `u8` below 8 and `id` a `u32`.
pub open spec fn entry_of(t: Seq<char>) -> Option<(nat, nat)> {
    match find_first(t, char_pred('=')) {
        None => None,
        Some(e) => {
            let k = t.take(e as int);
            let tv = trim(t.skip(e as int + 1));
            if !starts_with(k, key_prefix()) {
                None
            } else {
                match parse_unsigned(k.skip(3), 255) {
                    None => None,
                    Some(n) => if n >= 8 || tv.len() == 0 {
                        None
                    } else {
                        match parse_unsigned(first_token(tv), 0xffff_ffff) {
                            Some(id) => Some((n, id)),
                            None => None,
                        }
                    },
                }
            }
        },
    }
}

/// Reading state: the MIDI section being read (if any) and the bindings so
/// far.
pub open spec fn ini_step(
    state: (Option<Seq<char>>, Seq<(Seq<char>, nat, nat)>),
    line: Seq<char>,
) -> (Option<Seq<char>>, Seq<(Seq<char>, nat, nat)>) {
    let t = trim(line);
    if t.len() > 0 && t[0] == '[' {
        (header_section(t), state.1)
    } else {
        match state.0 {
            None => state,
            Some(ctx) => match entry_of(t) {
                Some((n, id)) => (state.0, state.1.push((ctx, n, id))),
                None => state,
            },
        }
    }
}

pub open spec fn ini_fold(lines: Seq<Seq<char>>) -> (Option<Seq<char>>, Seq<(Seq<char>, nat, nat)>)
    decreases lines.len(),
{
    if lines.len() == 0 {
        (None, Seq::empty())
    } else {
        ini_step(ini_fold(lines.drop_last()), lines.last())
    }
}

/// Every binding of the MIDI context sections, in file order.
pub open spec fn midi_mouse_bindings(ini: Seq<char>) -> Seq<(Seq<char>, nat, nat)> {
    ini_fold(split(ini, '\n')).1
}

/// The (mods, id) of the entry line `v[a..b]` (trimmed).
fn line_entry(v: &Vec<char>, a: usize, b: usize) -> (r: Option<(u8, u32)>)
    requires
        a <= b <= v@.len(),
    ensures
        match r {
            Some((n, id)) => entry_of(v@.subrange(a as int, b as int)) == Some(
                (n as nat, id as nat),
            ),
            None => entry_of(v@.subrange(a as int, b as int)) is None,
        },
{
    let ghost t = v@.subrange(a as int, b as int);
    let e = match find_char_range(v, a, b, '=') {
        Some(e) => e,
        None => return None,
    };
    let ke = a + e;
    let ghost k = t.take(e as int);
    assert(k =~= v@.subrange(a as int, ke as int));
    let keyed = range_starts_with(v, a, ke, "mm_");
    proof {
        reveal_strlit("mm_");
        assert("mm_"@ =~= key_prefix());
        if 3 <= k.len() {
            assert(k.take(3) =~= v@.subrange(a as int, a + 3));
        }
        assert(keyed == starts_with(k, key_prefix()));
    }
    if !keyed {
        return None;
    }
    proof {
        assert(k.skip(3) =~= v@.subrange(a + 3, ke as int));
        assert(t.skip(e + 1) =~= v@.subrange(ke + 1, b as int));
    }
    let n = match parse_unsigned_range(v, a + 3, ke, 255) {
        Some(n) => n,
        None => return None,
    };
    if n >= 8 {
        return None;
    }
    let (va, vb) = trim_range(v, ke + 1, b);
    let ghost tv = v@.subrange(va as int, vb as int);
    assert(tv == trim(t.skip(e + 1)));
    if va == vb {
        return None;
    }
    let w = find_ws_range(v, va, vb);
    proof {
        if w < vb - va {
            assert(first_token(tv) =~= v@.subrange(va as int, va + w));
        } else {
            assert(first_token(tv) =~= v@.subrange(va as int, va + w));
        }
    }
    let id = match parse_unsigned_range(v, va, va + w, 0xffff_ffff) {
        Some(id) => id,
        None => return None,
    };
    Some((n as u8, id as u32))
}

/// Read every MIDI-context binding out of the ini text, in file order.
pub fn parse_midi_mouse_bindings(ini: &str) -> (r: Vec<MouseIniBinding>)
    ensures
        r@.map_values(|b: MouseIniBinding| binding_view(b)) == midi_mouse_bindings(ini@),
{
    let lines = split_str(ini, '\n');
    let mut out: Vec<MouseIniBinding> = Vec::new();
    let mut section: Option<String> = None;
    let mut i: usize = 0;
    while i < lines.len()
        invariant
            i <= lines@.len(),
            views(lines@) == split(ini@, '\n'),
            ({
                let st = ini_fold(views(lines@).subrange(0, i as int));
                &&& st.1 == out@.map_values(|b: MouseIniBinding| binding_view(b))
                &&& st.0 == match section {
                    Some(s) => Some(s@),
                    None => None::<Seq<char>>,
                }
            }),
        decreases lines.len() - i,
    {
        let ghost pre = views(lines@).subrange(0, i as int);
        let ghost line = lines@[i as int]@;
        proof {
            assert(views(lines@).subrange(0, i + 1).drop_last() =~= pre);
            assert(views(lines@).subrange(0, i + 1).last() == line);
            assert(ini_fold(views(lines@).subrange(0, i + 1)) == ini_step(ini_fold(pre), line));
            reveal_strlit("MM_CTX_MIDI");
        }
        let v = chars_of(lines[i].as_str());
        assert(v@.subrange(0, v@.len() as int) =~= line);
        let (a, b) = trim_range(&v, 0, v.len());
        let ghost t = v@.subrange(a as int, b as int);
        if a < b && v[a] == '[' {
            let e = strip_trailing_range(&v, a + 1, b, ']');
            proof {
                assert(t.drop_first() =~= v@.subrange(a + 1, b as int));
            }
            let midi = range_starts_with(&v, a + 1, e, "MM_CTX_MIDI");
            proof {
                let name = v@.subrange(a + 1, e as int);
                assert("MM_CTX_MIDI"@ =~= midi_ctx_prefix());
                if 11 <= name.len() {
                    assert(name.take(11) =~= v@.subrange(a + 1, a + 12));
                }
                assert(midi == starts_with(name, midi_ctx_prefix()));
            }
            if midi {
                section = Some(string_of(&v, a + 1, e));
            } else {
                section = None;
            }
            assert(t.len() > 0 && t[0] == '[');
            assert(header_section(t) == match section {
                Some(s) => Some(s@),
                None => None::<Seq<char>>,
            });
        } else {
            assert(!(t.len() > 0 && t[0] == '['));
            match &section {
                None => {},
                Some(ctx) => {
                    match line_entry(&v, a, b) {
                        Some((n, id)) => {
                            let ghost before = out@;
                            out.push(MouseIniBinding { section: ctx.clone(), mods: n, behavior_id: id });
                            assert(out@.map_values(|b: MouseIniBinding| binding_view(b)) =~= before.map_values(
                                |b: MouseIniBinding| binding_view(b),
                            ).push((ctx@, n as nat, id as nat)));
                        },
                        None => {},
                    }
                },
            }
        }
        i += 1;
    }
    assert(views(lines@).subrange(0, lines@.len() as int) =~= views(lines@));
    out
}

/// Every binding comes from a MIDI context section and has a modifier
/// combination without the Win/Super bit.
pub open spec fn wellformed_binding(b: (Seq<char>, nat, nat)) -> bool {
    starts_with(b.0, midi_ctx_prefix()) && b.1 < 8
}

proof fn lemma_fold_wellformed(lines: Seq<Seq<char>>)
    ensures
        ini_fold(lines).0 matches Some(ctx) ==> starts_with(ctx, midi_ctx_prefix()),
        forall|i: int|
            0 <= i < ini_fold(lines).1.len() ==> wellformed_binding(#[trigger] ini_fold(lines).1[i]),
    decreases lines.len(),
{
    if lines.len() > 0 {
        let pre = ini_fold(lines.drop_last());
        lemma_fold_wellformed(lines.drop_last());
        let t = trim(lines.last());
        let now = ini_fold(lines);
        if !(t.len() > 0 && t[0] == '[') {
            if let Some(ctx) = pre.0 {
                if let Some((n, id)) = entry_of(t) {
                    assert forall|i: int| 0 <= i < now.1.len() implies wellformed_binding(
                        #[trigger] now.1[i],
                    ) by {
                        if i < pre.1.len() {
                            assert(now.1[i] == pre.1[i]);
                        }
                    }
                }
            }
        }
    }
}

/// Only MIDI contexts are read, and Win/Super combinations are dropped:
/// every binding read names a `MM_CTX_MIDI*` section and has modifier bits
/// below 8.
pub proof fn law_bindings_are_midi_without_win(ini: Seq<char>)
    ensures
        forall|i: int|
            0 <= i < midi_mouse_bindings(ini).len() ==> wellformed_binding(
                #[trigger] midi_mouse_bindings(ini)[i],
            ),
{
    lemma_fold_wellformed(split(ini, '\n'));
}

} // verus!
