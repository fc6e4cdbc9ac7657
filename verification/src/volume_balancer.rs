//! Volume balancer — constant-sum fader linking.
//!
//! Tracks are linked into groups; when the user moves one fader, the other
//! members move inversely so the group's total (linear) volume stays
//! constant. Groups live in project ext state: the index key `groups`
//! holds the `;`-joined group names and each `group.<name>` key holds the
//! `;`-joined member GUIDs.
//!
//! This module holds the balancer's bookkeeping: GUID canonicalisation,
//! decoding the stored groups, keeping observed state across a resync,
//! resolving members against the project's tracks, recognising a single
//! fader gesture, choosing a name for a new link and rewriting the index on
//! link and unlink. The linear-volume arithmetic itself is done by the host.
use vstd::prelude::*;
use crate::text::{
    all_digits, ascii_lower, char_pred, chars_of, decimal, digit_char, digits_value, is_digit,
    is_ws, join, lemma_decimal_injective, lemma_decimal_value, lemma_digits_push, lemma_split_push, lower, ws_pred, push_char, push_decimal, push_str, split, split_str, strip_leading_range,
    strip_trailing_range, to_ascii_lower, trim, trim_end_by, trim_range, trim_start_by, views,
};

verus! {

broadcast use vstd::seq_lib::group_seq_properties;

/// Re-read groups from project ext state every this many timer ticks.
pub const RESYNC_TICKS: u32 = 30;

// ---------------------------------------------------------------------
// GUIDs and stored text
// ---------------------------------------------------------------------

/// A GUID canonicalised for comparison: trimmed, braceless, lowercase.
pub open spec fn normalized_guid(s: Seq<char>) -> Seq<char> {
    lower(trim_end_by(trim_start_by(trim(s), char_pred('{')), char_pred('}')))
}

/// Lowercased copy of `v[lo..hi]`.
fn lower_string_of(v: &Vec<char>, lo: usize, hi: usize) -> (r: String)
    requires
        lo <= hi <= v@.len(),
    ensures
        r@ == lower(v@.subrange(lo as int, hi as int)),
{
    let mut out = String::new();
    let mut i = lo;
    while i < hi
        invariant
            lo <= i <= hi <= v@.len(),
            out@ == lower(v@.subrange(lo as int, i as int)),
        decreases hi - i,
    {
        push_char(&mut out, to_ascii_lower(v[i]));
        assert(lower(v@.subrange(lo as int, i + 1)) =~= lower(v@.subrange(lo as int, i as int)).push(
            ascii_lower(v@[i as int]),
        ));
        i += 1;
    }
    out
}

/// GUIDs arrive in mixed shapes (`{...}`, braceless, mixed case); this is
/// the canonical form they are compared in.
pub fn normalize_guid(guid: &str) -> (r: String)
    ensures
        r@ == normalized_guid(guid@),
{
    let v = chars_of(guid);
    assert(v@.subrange(0, v@.len() as int) =~= guid@);
    let (a, b) = trim_range(&v, 0, v.len());
    let a2 = strip_leading_range(&v, a, b, '{');
    let b2 = strip_trailing_range(&v, a2, b, '}');
    lower_string_of(&v, a2, b2)
}

pub open spec fn nonempty_pred() -> spec_fn(Seq<char>) -> bool {
    |p: Seq<char>| p.len() > 0
}

/// The group names listed in the stored index value (absent: none).
pub open spec fn index_names(stored: Option<Seq<char>>) -> Seq<Seq<char>> {
    split(
        match stored {
            Some(s) => s,
            None => Seq::<char>::empty(),
        },
        ';',
    ).filter(nonempty_pred())
}

/// The canonical member GUIDs listed in a stored group value.
pub open spec fn group_members(stored: Seq<char>) -> Seq<Seq<char>> {
    split(stored, ';').map_values(|p: Seq<char>| normalized_guid(p)).filter(nonempty_pred())
}

proof fn lemma_filter_push(s: Seq<Seq<char>>, x: Seq<char>, p: spec_fn(Seq<char>) -> bool)
    ensures
        s.push(x).filter(p) == (if p(x) {
            s.filter(p).push(x)
        } else {
            s.filter(p)
        }),
{
    reveal(Seq::filter);
    assert(s.push(x).drop_last() =~= s);
}

/// The non-empty entries of `parts`, in order.
fn keep_nonempty(parts: Vec<String>) -> (r: Vec<String>)
    ensures
        views(r@) == views(parts@).filter(nonempty_pred()),
{
    let mut out: Vec<String> = Vec::new();
    let mut i: usize = 0;
    while i < parts.len()
        invariant
            i <= parts@.len(),
            views(out@) == views(parts@.subrange(0, i as int)).filter(nonempty_pred()),
        decreases parts.len() - i,
    {
        let ghost pre = views(parts@.subrange(0, i as int));
        proof {
            assert(views(parts@.subrange(0, i + 1)) =~= pre.push(parts@[i as int]@));
            lemma_filter_push(pre, parts@[i as int]@, nonempty_pred());
        }
        if parts[i].as_str().unicode_len() > 0 {
            out.push(parts[i].clone());
            assert(views(out@) =~= pre.filter(nonempty_pred()).push(parts@[i as int]@));
        }
        i += 1;
    }
    assert(parts@.subrange(0, parts@.len() as int) =~= parts@);
    out
}

/// Group names listed in the `groups` index value.
pub fn group_index(stored: Option<&str>) -> (r: Vec<String>)
    ensures
        views(r@) == index_names(
            match stored {
                Some(s) => Some(s@),
                None => None,
            },
        ),
{
    let parts = match stored {
        Some(s) => split_str(s, ';'),
        None => split_str("", ';'),
    };
    proof {
        if stored is None {
            reveal_strlit("");
            assert(""@ =~= Seq::<char>::empty());
        }
    }
    keep_nonempty(parts)
}

/// Canonical member GUIDs of a stored group value.
pub fn parse_members(stored: &str) -> (r: Vec<String>)
    ensures
        views(r@) == group_members(stored@),
{
    let parts = split_str(stored, ';');
    let mut canon: Vec<String> = Vec::new();
    let mut i: usize = 0;
    while i < parts.len()
        invariant
            i <= parts@.len(),
            views(parts@) == split(stored@, ';'),
            canon@.len() == i,
            views(canon@) == views(parts@.subrange(0, i as int)).map_values(
                |p: Seq<char>| normalized_guid(p),
            ),
        decreases parts.len() - i,
    {
        let ghost old_canon = canon@;
        canon.push(normalize_guid(parts[i].as_str()));
        let ghost next = views(parts@.subrange(0, i + 1));
        assert forall|j: int| 0 <= j < i + 1 implies #[trigger] views(canon@)[j] == normalized_guid(
            next[j],
        ) by {
            let pre = views(parts@.subrange(0, i as int));
            if j < i {
                assert(canon@[j] == old_canon[j]);
                assert(next[j] == pre[j]);
                assert(views(old_canon)[j] == pre.map_values(|p: Seq<char>| normalized_guid(p))[j]);
            } else {
                assert(next[j] == parts@[i as int]@);
            }
        }
        assert(views(parts@.subrange(0, i + 1)) =~= views(parts@.subrange(0, i as int)).push(
            parts@[i as int]@,
        ));
        assert(views(canon@) =~= views(parts@.subrange(0, i + 1)).map_values(
            |p: Seq<char>| normalized_guid(p),
        ));
        i += 1;
    }
    assert(parts@.subrange(0, parts@.len() as int) =~= parts@);
    keep_nonempty(canon)
}

// ---------------------------------------------------------------------
// Groups
// ---------------------------------------------------------------------

/// One linked group: its ext-state key and its member GUIDs (canonical).
pub struct Group {
    pub key: String,
    pub guids: Vec<String>,
}

/// The ext-state key of a group name: `group.<name>`.
pub open spec fn group_key(name: Seq<char>) -> Seq<char> {
    seq!['g', 'r', 'o', 'u', 'p', '.'] + name
}

pub open spec fn opt_view(o: Option<String>) -> Option<Seq<char>> {
    match o {
        Some(s) => Some(s@),
        None => None,
    }
}

/// The groups decoded from the index names and each name's stored value:
/// a name whose value is absent, or lists fewer than two members, is skipped.
pub open spec fn loaded_groups(names: Seq<Seq<char>>, stored: Seq<Option<Seq<char>>>) -> Seq<
    (Seq<char>, Seq<Seq<char>>),
>
    decreases names.len(),
{
    if names.len() == 0 || stored.len() != names.len() {
        Seq::empty()
    } else {
        let rest = loaded_groups(names.drop_last(), stored.drop_last());
        match stored.last() {
            Some(v) => if group_members(v).len() >= 2 {
                rest.push((group_key(names.last()), group_members(v)))
            } else {
                rest
            },
            None => rest,
        }
    }
}

pub open spec fn group_view(g: Group) -> (Seq<char>, Seq<Seq<char>>) {
    (g.key@, views(g.guids@))
}

pub open spec fn groups_view(gs: Seq<Group>) -> Seq<(Seq<char>, Seq<Seq<char>>)> {
    gs.map_values(|g: Group| group_view(g))
}

/// `group.<name>` as a string.
pub fn make_group_key(name: &str) -> (r: String)
    ensures
        r@ == group_key(name@),
{
    let mut k = String::new();
    push_str(&mut k, "group.");
    push_str(&mut k, name);
    proof {
        reveal_strlit("group.");
        assert(k@ =~= group_key(name@));
    }
    k
}

/// Decode every linked group from the index names and the value stored
/// under each name's key (`stored[i]` belongs to `names[i]`).
pub fn load_groups(names: &Vec<String>, stored: &Vec<Option<String>>) -> (r: Vec<Group>)
    requires
        names@.len() == stored@.len(),
    ensures
        groups_view(r@) == loaded_groups(views(names@), stored@.map_values(|o: Option<String>| opt_view(o))),
{
    let ghost sv = stored@.map_values(|o: Option<String>| opt_view(o));
    let mut out: Vec<Group> = Vec::new();
    let mut i: usize = 0;
    while i < names.len()
        invariant
            names@.len() == stored@.len(),
            sv == stored@.map_values(|o: Option<String>| opt_view(o)),
            i <= names@.len(),
            groups_view(out@) == loaded_groups(
                views(names@.subrange(0, i as int)),
                sv.subrange(0, i as int),
            ),
        decreases names.len() - i,
    {
        let ghost pre_n = views(names@.subrange(0, i as int));
        let ghost pre_s = sv.subrange(0, i as int);
        let ghost old_out = out@;
        proof {
            let nn = views(names@.subrange(0, i + 1));
            let ns = sv.subrange(0, i + 1);
            assert(nn.drop_last() =~= pre_n);
            assert(ns.drop_last() =~= pre_s);
            assert(nn.last() == names@[i as int]@);
            assert(ns.last() == opt_view(stored@[i as int]));
        }
        match &stored[i] {
            Some(val) => {
                let guids = parse_members(val.as_str());
                if guids.len() >= 2 {
                    let key = make_group_key(names[i].as_str());
                    out.push(Group { key, guids });
                    assert(groups_view(out@) =~= groups_view(old_out).push(group_view(out@.last())));
                }
            },
            None => {},
        }
        i += 1;
    }
    assert(names@.subrange(0, names@.len() as int) =~= names@);
    assert(sv.subrange(0, names@.len() as int) =~= sv);
    out
}

/// Whether two string lists hold the same strings in the same order.
pub fn same_strings(a: &Vec<String>, b: &Vec<String>) -> (r: bool)
    ensures
        r == (views(a@) == views(b@)),
{
    if a.len() != b.len() {
        assert(views(a@).len() != views(b@).len());
        return false;
    }
    let mut i: usize = 0;
    while i < a.len()
        invariant
            a@.len() == b@.len(),
            i <= a@.len(),
            forall|j: int| 0 <= j < i ==> a@[j]@ == b@[j]@,
        decreases a.len() - i,
    {
        if a[i] != b[i] {
            assert(views(a@)[i as int] != views(b@)[i as int]);
            return false;
        }
        i += 1;
    }
    assert(views(a@) =~= views(b@));
    true
}

/// Whether two groups have the same key and the same members.
pub fn same_group(a: &Group, b: &Group) -> (r: bool)
    ensures
        r == (group_view(*a) == group_view(*b)),
{
    a.key == b.key && same_strings(&a.guids, &b.guids)
}

/// Position of the first group in `gs` with the same key and members as `g`.
pub fn first_same(gs: &Vec<Group>, g: &Group) -> (r: Option<usize>)
    ensures
        match r {
            Some(j) => j < gs@.len() && group_view(gs@[j as int]) == group_view(*g) && forall|k: int|
                0 <= k < j ==> group_view(gs@[k]) != group_view(*g),
            None => forall|k: int| 0 <= k < gs@.len() ==> group_view(gs@[k]) != group_view(*g),
        },
{
    let mut j: usize = 0;
    while j < gs.len()
        invariant
            j <= gs@.len(),
            forall|k: int| 0 <= k < j ==> group_view(gs@[k]) != group_view(*g),
        decreases gs.len() - j,
    {
        if same_group(&gs[j], g) {
            return Some(j);
        }
        j += 1;
    }
    None
}

/// For each freshly loaded group, the position of the first previously
/// tracked group with the same key and members, whose observed volumes are
/// carried over so a resync never masks an in-flight fader move.
pub fn carried_over(old: &Vec<Group>, fresh: &Vec<Group>) -> (r: Vec<Option<usize>>)
    ensures
        r@.len() == fresh@.len(),
        forall|i: int|
            0 <= i < fresh@.len() ==> match #[trigger] r@[i] {
                Some(j) => j < old@.len() && group_view(old@[j as int]) == group_view(fresh@[i])
                    && forall|k: int|
                    0 <= k < j ==> group_view(old@[k]) != group_view(fresh@[i]),
                None => forall|k: int|
                    0 <= k < old@.len() ==> group_view(old@[k]) != group_view(fresh@[i]),
            },
{
    let mut out: Vec<Option<usize>> = Vec::new();
    let mut i: usize = 0;
    while i < fresh.len()
        invariant
            i <= fresh@.len(),
            out@.len() == i,
            forall|m: int|
                0 <= m < i ==> match #[trigger] out@[m] {
                    Some(j) => j < old@.len() && group_view(old@[j as int]) == group_view(fresh@[m])
                        && forall|k: int|
                        0 <= k < j ==> group_view(old@[k]) != group_view(fresh@[m]),
                    None => forall|k: int|
                        0 <= k < old@.len() ==> group_view(old@[k]) != group_view(fresh@[m]),
                },
        decreases fresh.len() - i,
    {
        let found = first_same(old, &fresh[i]);
        out.push(found);
        i += 1;
    }
    out
}

/// Whether the group list differs from the previous one (length, or any
/// key or member list at the same position).
pub fn groups_changed(old: &Vec<Group>, new: &Vec<Group>) -> (r: bool)
    ensures
        r == (groups_view(old@) != groups_view(new@)),
{
    if old.len() != new.len() {
        assert(groups_view(old@).len() != groups_view(new@).len());
        return true;
    }
    let mut i: usize = 0;
    while i < old.len()
        invariant
            old@.len() == new@.len(),
            i <= old@.len(),
            forall|j: int| 0 <= j < i ==> group_view(old@[j]) == group_view(new@[j]),
        decreases old.len() - i,
    {
        if !same_group(&old[i], &new[i]) {
            assert(groups_view(old@)[i as int] != groups_view(new@)[i as int]);
            return true;
        }
        i += 1;
    }
    assert(groups_view(old@) =~= groups_view(new@));
    false
}

// ---------------------------------------------------------------------
// Members and gestures
// ---------------------------------------------------------------------

/// Position of the first track whose GUID is `guid`.
pub fn find_track(tracks: &Vec<String>, guid: &String) -> (r: Option<usize>)
    ensures
        match r {
            Some(j) => j < tracks@.len() && tracks@[j as int]@ == guid@ && forall|k: int|
                0 <= k < j ==> tracks@[k]@ != guid@,
            None => forall|k: int| 0 <= k < tracks@.len() ==> tracks@[k]@ != guid@,
        },
{
    let mut j: usize = 0;
    while j < tracks.len()
        invariant
            j <= tracks@.len(),
            forall|k: int| 0 <= k < j ==> tracks@[k]@ != guid@,
        decreases tracks.len() - j,
    {
        if tracks[j] == *guid {
            return Some(j);
        }
        j += 1;
    }
    None
}

/// Resolve every member GUID to the first project track (by position in
/// `tracks`, the project's track GUIDs) carrying it. A group with any
/// member missing (deleted, other project tab) sits out: `None`.
pub fn resolve_members(guids: &Vec<String>, tracks: &Vec<String>) -> (r: Option<Vec<usize>>)
    ensures
        r is Some <==> forall|i: int|
            0 <= i < guids@.len() ==> views(tracks@).contains(#[trigger] guids@[i]@),
        r matches Some(m) ==> m@.len() == guids@.len() && forall|i: int|
            0 <= i < guids@.len() ==> {
                let k = #[trigger] m@[i] as int;
                &&& k < tracks@.len()
                &&& tracks@[k]@ == guids@[i]@
                &&& forall|l: int| 0 <= l < k ==> tracks@[l]@ != guids@[i]@
            },
{
    let mut out: Vec<usize> = Vec::new();
    let mut i: usize = 0;
    while i < guids.len()
        invariant
            i <= guids@.len(),
            out@.len() == i,
            forall|x: int|
                0 <= x < i ==> {
                    let k = #[trigger] out@[x] as int;
                    &&& k < tracks@.len()
                    &&& tracks@[k]@ == guids@[x]@
                    &&& forall|l: int| 0 <= l < k ==> tracks@[l]@ != guids@[x]@
                },
        decreases guids.len() - i,
    {
        match find_track(tracks, &guids[i]) {
            Some(k) => out.push(k),
            None => {
                assert(!views(tracks@).contains(guids@[i as int]@)) by {
                    if views(tracks@).contains(guids@[i as int]@) {
                        let k = choose|k: int|
                            0 <= k < views(tracks@).len() && views(tracks@)[k] == guids@[i as int]@;
                        assert(tracks@[k]@ == guids@[i as int]@);
                    }
                }
                return None;
            },
        }
        i += 1;
    }
    assert forall|x: int| 0 <= x < guids@.len() implies views(tracks@).contains(
        #[trigger] guids@[x]@,
    ) by {
        let k = out@[x] as int;
        assert(views(tracks@)[k] == guids@[x]@);
    }
    Some(out)
}

/// `i` is the only index whose fader changed.
pub open spec fn only_changed(changed: Seq<bool>, i: int) -> bool {
    &&& 0 <= i < changed.len()
    &&& changed[i]
    &&& forall|j: int| 0 <= j < changed.len() && j != i ==> !changed[j]
}

/// Exactly one fader moved → a user gesture to compensate; several at once
/// (undo, project load, our own writes) or none → no compensation.
pub fn single_moved(changed: &Vec<bool>) -> (r: Option<usize>)
    ensures
        r matches Some(i) ==> only_changed(changed@, i as int),
        r is None ==> forall|i: int| !only_changed(changed@, i),
{
    let mut found: Option<usize> = None;
    let mut i: usize = 0;
    while i < changed.len()
        invariant
            i <= changed@.len(),
            match found {
                Some(f) => f < i && changed@[f as int] && forall|j: int|
                    0 <= j < i && j != f ==> !changed@[j],
                None => forall|j: int| 0 <= j < i ==> !changed@[j],
            },
        decreases changed.len() - i,
    {
        if changed[i] {
            match found {
                Some(f) => {
                    assert forall|x: int| !only_changed(changed@, x) by {
                        if only_changed(changed@, x) {
                            if x != f as int {
                                assert(!changed@[x]) by {
                                    assert(changed@[f as int]);
                                }
                            }
                        }
                    }
                    return None;
                },
                None => {
                    found = Some(i);
                },
            }
        }
        i += 1;
    }
    found
}

// ---------------------------------------------------------------------
// Linking and unlinking
// ---------------------------------------------------------------------

/// The name `sel.<n>` of the `n`th selection link.
pub open spec fn selection_name(n: nat) -> Seq<char> {
    seq!['s', 'e', 'l', '.'] + decimal(n)
}

proof fn lemma_selection_name_injective(a: nat, b: nat)
    requires
        selection_name(a) == selection_name(b),
    ensures
        a == b,
{
    assert(decimal(a) =~= selection_name(a).subrange(4, selection_name(a).len() as int));
    assert(decimal(b) =~= selection_name(b).subrange(4, selection_name(b).len() as int));
    lemma_decimal_injective(a, b);
}

/// `sel.<n>` as a string.
pub fn make_selection_name(n: u64) -> (r: String)
    ensures
        r@ == selection_name(n as nat),
{
    let mut s = String::new();
    push_str(&mut s, "sel.");
    push_decimal(&mut s, n);
    proof {
        reveal_strlit("sel.");
        assert(s@ =~= selection_name(n as nat));
    }
    s
}

/// Whether `names` holds a string equal to `name`.
pub fn contains_name(names: &Vec<String>, name: &String) -> (r: bool)
    ensures
        r == views(names@).contains(name@),
{
    let mut i: usize = 0;
    while i < names.len()
        invariant
            i <= names@.len(),
            forall|k: int| 0 <= k < i ==> names@[k]@ != name@,
        decreases names.len() - i,
    {
        if names[i] == *name {
            assert(views(names@)[i as int] == name@);
            return true;
        }
        i += 1;
    }
    assert(!views(names@).contains(name@)) by {
        if views(names@).contains(name@) {
            let k = choose|k: int| 0 <= k < views(names@).len() && views(names@)[k] == name@;
            assert(names@[k]@ == name@);
        }
    }
    false
}

/// The name for a new selection link: `sel.<n>` for the smallest `n >= 1`
/// that the index does not already use.
pub fn next_selection_name(names: &Vec<String>) -> (r: String)
    requires
        names@.len() < usize::MAX,
    ensures
        exists|n: nat|
            n >= 1 && r@ == selection_name(n) && forall|m: nat|
                1 <= m < n ==> views(names@).contains(#[trigger] selection_name(m)),
        !views(names@).contains(r@),
{
    let ghost all = views(names@).to_set();
    proof {
        views(names@).lemma_cardinality_of_set();
    }
    let mut n: u64 = 1;
    let mut cand = make_selection_name(1);
    let ghost mut seen: Set<Seq<char>> = Set::empty();
    while contains_name(names, &cand)
        invariant
            1 <= n <= names@.len() + 1,
            names@.len() < usize::MAX,
            cand@ == selection_name(n as nat),
            all == views(names@).to_set(),
            all.len() <= names@.len(),
            all.finite(),
            seen.finite(),
            seen.subset_of(all),
            seen.len() == n - 1,
            forall|m: nat| 1 <= m < n ==> views(names@).contains(#[trigger] selection_name(m)),
            forall|x: Seq<char>| #[trigger] seen.contains(x) ==> exists|m: nat|
                1 <= m < n && x == selection_name(m),
        decreases names@.len() + 1 - n,
    {
        proof {
            assert(!seen.contains(cand@)) by {
                if seen.contains(cand@) {
                    let m = choose|m: nat| 1 <= m < n && cand@ == selection_name(m);
                    lemma_selection_name_injective(m, n as nat);
                }
            }
            assert(all.contains(cand@));
            seen = seen.insert(cand@);
            vstd::set_lib::lemma_len_subset(seen, all);
            assert(n <= names@.len());
        }
        n = n + 1;
        cand = make_selection_name(n);
        proof {
            assert forall|x: Seq<char>| #[trigger] seen.contains(x) implies exists|m: nat|
                1 <= m < n && x == selection_name(m) by {
                if x != selection_name((n - 1) as nat) {
                    let m = choose|m: nat| 1 <= m < n - 1 && x == selection_name(m);
                }
            }
        }
    }
    cand
}

/// The index after registering group `name`: unchanged (`None`) when the
/// name is already listed, otherwise the names with `name` appended.
pub fn add_to_index(names: Vec<String>, name: &str) -> (r: Option<Vec<String>>)
    ensures
        views(names@).contains(name@) ==> r is None,
        !views(names@).contains(name@) ==> (r matches Some(v) && views(v@) == views(names@).push(
            name@,
        )),
{
    let owned = name.to_owned();
    if contains_name(&names, &owned) {
        None
    } else {
        let mut v = names;
        let ghost before = views(v@);
        v.push(owned);
        assert(views(v@) =~= before.push(name@));
        Some(v)
    }
}

/// The `k`th `;`-separated piece of `v` is a selected track's GUID.
pub open spec fn piece_selected(v: Seq<char>, selected: Seq<Seq<char>>, k: int) -> bool {
    0 <= k < split(v, ';').len() && selected.contains(normalized_guid(split(v, ';')[k]))
}

/// A stored group value names at least one of the selected tracks.
pub open spec fn mentions_selected(stored: Option<Seq<char>>, selected: Seq<Seq<char>>) -> bool {
    &&& stored is Some
    &&& exists|k: int| #[trigger] piece_selected(stored->0, selected, k)
}

/// The names kept in the index after unlinking: those whose group does not
/// name a selected track.
pub open spec fn unlink_kept(
    names: Seq<Seq<char>>,
    stored: Seq<Option<Seq<char>>>,
    selected: Seq<Seq<char>>,
) -> Seq<Seq<char>>
    decreases names.len(),
{
    if names.len() == 0 || stored.len() != names.len() {
        Seq::empty()
    } else {
        let rest = unlink_kept(names.drop_last(), stored.drop_last(), selected);
        if mentions_selected(stored.last(), selected) {
            rest
        } else {
            rest.push(names.last())
        }
    }
}

/// The keys deleted when unlinking: those of groups naming a selected track.
pub open spec fn unlink_removed(
    names: Seq<Seq<char>>,
    stored: Seq<Option<Seq<char>>>,
    selected: Seq<Seq<char>>,
) -> Seq<Seq<char>>
    decreases names.len(),
{
    if names.len() == 0 || stored.len() != names.len() {
        Seq::empty()
    } else {
        let rest = unlink_removed(names.drop_last(), stored.drop_last(), selected);
        if mentions_selected(stored.last(), selected) {
            rest.push(group_key(names.last()))
        } else {
            rest
        }
    }
}

/// What unlinking the selected tracks does to the stored groups.
pub struct UnlinkPlan {
    /// Keys of the groups to delete.
    pub removed_keys: Vec<String>,
    /// The group index afterwards.
    pub kept: Vec<String>,
}

proof fn lemma_mentions(v: Seq<char>, sel: Seq<Seq<char>>, k: int)
    requires
        0 <= k < split(v, ';').len(),
        sel.contains(normalized_guid(split(v, ';')[k])),
    ensures
        mentions_selected(Some(v), sel),
{
    assert(piece_selected(v, sel, k));
    assert(exists|j: int| #[trigger] piece_selected(v, sel, j));
    assert(Some(v)->0 == v);
}

/// Whether a stored value names one of the selected tracks.
pub fn mentions_any(stored: &Option<String>, selected: &Vec<String>) -> (r: bool)
    ensures
        r == mentions_selected(opt_view(*stored), views(selected@)),
{
    match stored {
        None => false,
        Some(val) => {
            let parts = split_str(val.as_str(), ';');
            let mut k: usize = 0;
            while k < parts.len()
                invariant
                    k <= parts@.len(),
                    opt_view(*stored) == Some(val@),
                    views(parts@) == split(val@, ';'),
                    forall|j: int| 0 <= j < k ==> !#[trigger] piece_selected(val@, views(selected@), j),
                decreases parts.len() - k,
            {
                let g = normalize_guid(parts[k].as_str());
                assert(split(val@, ';')[k as int] == parts@[k as int]@);
                if contains_name(selected, &g) {
                    assert(views(selected@).contains(normalized_guid(split(val@, ';')[k as int])));
                    assert(views(parts@).len() == parts@.len());
                    assert(opt_view(*stored) == Some(val@));
                    let ghost kk = k as int;
                    assert(0 <= kk < split(val@, ';').len());
                    assert(exists|j: int|
                        0 <= j < split(val@, ';').len() && views(selected@).contains(
                            normalized_guid(#[trigger] split(val@, ';')[j]),
                        ));
                    proof { lemma_mentions(val@, views(selected@), kk); }
                    return true;
                }
                k += 1;
            }
            false
        },
    }
}

/// Remove every group naming any of the selected tracks (canonical GUIDs);
/// `stored[i]` is the value stored under `names[i]`'s key.
pub fn unlink_plan(names: &Vec<String>, stored: &Vec<Option<String>>, selected: &Vec<String>) -> (r:
    UnlinkPlan)
    requires
        names@.len() == stored@.len(),
    ensures
        views(r.kept@) == unlink_kept(
            views(names@),
            stored@.map_values(|o: Option<String>| opt_view(o)),
            views(selected@),
        ),
        views(r.removed_keys@) == unlink_removed(
            views(names@),
            stored@.map_values(|o: Option<String>| opt_view(o)),
            views(selected@),
        ),
{
    let ghost sv = stored@.map_values(|o: Option<String>| opt_view(o));
    let mut removed: Vec<String> = Vec::new();
    let mut kept: Vec<String> = Vec::new();
    let mut i: usize = 0;
    while i < names.len()
        invariant
            names@.len() == stored@.len(),
            sv == stored@.map_values(|o: Option<String>| opt_view(o)),
            i <= names@.len(),
            views(kept@) == unlink_kept(
                views(names@.subrange(0, i as int)),
                sv.subrange(0, i as int),
                views(selected@),
            ),
            views(removed@) == unlink_removed(
                views(names@.subrange(0, i as int)),
                sv.subrange(0, i as int),
                views(selected@),
            ),
        decreases names.len() - i,
    {
        proof {
            let nn = views(names@.subrange(0, i + 1));
            let ns = sv.subrange(0, i + 1);
            assert(nn.drop_last() =~= views(names@.subrange(0, i as int)));
            assert(ns.drop_last() =~= sv.subrange(0, i as int));
            assert(nn.last() == names@[i as int]@);
            assert(ns.last() == opt_view(stored@[i as int]));
        }
        let ghost old_kept = views(kept@);
        let ghost old_removed = views(removed@);
        if mentions_any(&stored[i], selected) {
            removed.push(make_group_key(names[i].as_str()));
            assert(views(removed@) =~= old_removed.push(group_key(names@[i as int]@)));
        } else {
            kept.push(names[i].clone());
            assert(views(kept@) =~= old_kept.push(names@[i as int]@));
        }
        i += 1;
    }
    assert(names@.subrange(0, names@.len() as int) =~= names@);
    assert(sv.subrange(0, names@.len() as int) =~= sv);
    UnlinkPlan { removed_keys: removed, kept }
}

// ---------------------------------------------------------------------
// Balancer state and the per-tick poll
// ---------------------------------------------------------------------

/// The balancer's switches: whether it runs, whether the groups must be
/// re-read on the next tick, and the timer tick counter.
pub struct VolumeBalancer {
    pub enabled: bool,
    pub dirty: bool,
    pub tick: u32,
}

/// What a timer tick asks of the host.
pub enum PollStep {
    /// The balancer is off: nothing to do.
    Disabled,
    /// Compare faders; re-read the stored groups first when `resync`.
    Run { resync: bool },
}

impl VolumeBalancer {
    /// Enabled, with a group reload pending, at tick 0.
    pub fn new() -> (r: VolumeBalancer)
        ensures
            r.enabled,
            r.dirty,
            r.tick == 0,
    {
        VolumeBalancer { enabled: true, dirty: true, tick: 0 }
    }
}

pub fn is_enabled(b: &VolumeBalancer) -> (r: bool)
    ensures
        r == b.enabled,
{
    b.enabled
}

/// Switch the balancer on or off. Switching on also means the volumes
/// observed before must be forgotten, so stale values are not mistaken for
/// a fader move on the first tick.
pub fn set_enabled(b: &mut VolumeBalancer, on: bool)
    ensures
        final(b).enabled == on,
        final(b).dirty == old(b).dirty,
        final(b).tick == old(b).tick,
{
    b.enabled = on;
}

/// Force a group reload on the next tick (after link/unlink edits).
pub fn mark_dirty(b: &mut VolumeBalancer)
    ensures
        final(b).dirty,
        final(b).enabled == old(b).enabled,
        final(b).tick == old(b).tick,
{
    b.dirty = true;
}

/// The tick counter after one more tick (wrapping).
pub open spec fn next_tick(t: u32) -> u32 {
    if t == u32::MAX {
        0
    } else {
        (t + 1) as u32
    }
}

/// Per-tick poll: when enabled, advance the tick and decide whether the
/// groups are re-read (a pending reload, or every `RESYNC_TICKS` ticks).
pub fn poll(b: &mut VolumeBalancer) -> (r: PollStep)
    ensures
        !old(b).enabled ==> r is Disabled && *final(b) == *old(b),
        old(b).enabled ==> {
            &&& final(b).tick == next_tick(old(b).tick)
            &&& r == (PollStep::Run {
                resync: old(b).dirty || final(b).tick % RESYNC_TICKS == 0,
            })
            &&& !final(b).dirty
            &&& final(b).enabled
        },
{
    if !b.enabled {
        return PollStep::Disabled;
    }
    b.tick = if b.tick == u32::MAX {
        0
    } else {
        b.tick + 1
    };
    let resync = b.dirty || b.tick % RESYNC_TICKS == 0;
    b.dirty = false;
    PollStep::Run { resync }
}

// ---------------------------------------------------------------------
// Laws
// ---------------------------------------------------------------------

proof fn lemma_trim_lower(s: Seq<char>, p: spec_fn(char) -> bool)
    requires
        forall|c: char| #[trigger] p(ascii_lower(c)) == p(c),
    ensures
        trim_start_by(lower(s), p) == lower(trim_start_by(s, p)),
        trim_end_by(lower(s), p) == lower(trim_end_by(s, p)),
    decreases s.len(),
{
    if s.len() > 0 {
        assert(lower(s).drop_first() =~= lower(s.drop_first()));
        assert(lower(s).drop_last() =~= lower(s.drop_last()));
        assert(lower(s)[0] == ascii_lower(s[0]));
        assert(lower(s).last() == ascii_lower(s.last()));
        lemma_trim_lower(s.drop_first(), p);
        lemma_trim_lower(s.drop_last(), p);
    }
}

proof fn lemma_lower_idempotent(s: Seq<char>)
    ensures
        lower(lower(s)) == lower(s),
{
    assert(lower(lower(s)) =~= lower(s));
}

/// GUID comparison ignores case: a GUID and its lowercase spelling have the
/// same canonical form.
pub proof fn law_normalized_guid_ignores_case(s: Seq<char>)
    ensures
        normalized_guid(lower(s)) == normalized_guid(s),
{
    assert forall|c: char| #[trigger] ws_pred()(ascii_lower(c)) == ws_pred()(c) by {}
    assert forall|c: char| #[trigger] char_pred('{')(ascii_lower(c)) == char_pred('{')(c) by {}
    assert forall|c: char| #[trigger] char_pred('}')(ascii_lower(c)) == char_pred('}')(c) by {}
    lemma_trim_lower(s, ws_pred());
    lemma_trim_lower(trim_start_by(s, ws_pred()), ws_pred());
    let t = trim(s);
    lemma_trim_lower(t, char_pred('{'));
    let u = trim_start_by(t, char_pred('{'));
    lemma_trim_lower(u, char_pred('}'));
    lemma_lower_idempotent(trim_end_by(u, char_pred('}')));
}

/// A GUID in braces and the same GUID without them have the same canonical
/// form (for a GUID with no surrounding whitespace or braces of its own).
pub proof fn law_normalized_guid_ignores_braces(g: Seq<char>)
    requires
        g.len() > 0,
        !is_ws(g[0]) && g[0] != '{',
        !is_ws(g.last()) && g.last() != '}',
    ensures
        normalized_guid(seq!['{'] + g + seq!['}']) == normalized_guid(g),
        normalized_guid(g) == lower(g),
{
    let b = seq!['{'] + g + seq!['}'];
    // trimming whitespace leaves both untouched
    assert(trim_start_by(b, ws_pred()) == b);
    assert(trim_end_by(b, ws_pred()) == b);
    assert(trim_start_by(g, ws_pred()) == g);
    assert(trim_end_by(g, ws_pred()) == g);
    // stripping the braces
    assert(b.drop_first() =~= g + seq!['}']);
    assert(trim_start_by(g + seq!['}'], char_pred('{')) == g + seq!['}']) by {
        assert((g + seq!['}'])[0] == g[0]);
    }
    assert((g + seq!['}']).drop_last() =~= g);
    assert(trim_end_by(g, char_pred('}')) == g);
    assert(trim_start_by(g, char_pred('{')) == g);
}

/// Linking twice never reuses a name: once the chosen `sel.<n>` is in the
/// index, the next choice is a different name.
pub proof fn law_selection_names_fresh(names: Seq<Seq<char>>, first: nat, second: nat)
    requires
        !names.contains(selection_name(first)),
        !names.push(selection_name(first)).contains(selection_name(second)),
    ensures
        first != second,
{
    assert(names.push(selection_name(first))[names.len() as int] == selection_name(first));
}

/// Unlinking splits the index: every group is either deleted or kept,
/// and no kept group names a selected track.
pub proof fn law_unlink_partitions(
    names: Seq<Seq<char>>,
    stored: Seq<Option<Seq<char>>>,
    selected: Seq<Seq<char>>,
)
    requires
        names.len() == stored.len(),
    ensures
        unlink_kept(names, stored, selected).len() + unlink_removed(names, stored, selected).len()
            == names.len(),
        forall|i: int|
            0 <= i < names.len() && !mentions_selected(stored[i], selected) ==> unlink_kept(
                names,
                stored,
                selected,
            ).contains(#[trigger] names[i]),
        forall|i: int|
            0 <= i < names.len() && mentions_selected(stored[i], selected) ==> unlink_removed(
                names,
                stored,
                selected,
            ).contains(group_key(#[trigger] names[i])),
    decreases names.len(),
{
    if names.len() > 0 {
        let n2 = names.drop_last();
        let s2 = stored.drop_last();
        law_unlink_partitions(n2, s2, selected);
        let k = unlink_kept(names, stored, selected);
        let rm = unlink_removed(names, stored, selected);
        let k2 = unlink_kept(n2, s2, selected);
        let rm2 = unlink_removed(n2, s2, selected);
        assert forall|i: int|
            0 <= i < names.len() && !mentions_selected(stored[i], selected) implies k.contains(
                #[trigger] names[i],
            ) by {
            if i < names.len() - 1 {
                assert(n2[i] == names[i] && s2[i] == stored[i]);
                let j = choose|j: int| 0 <= j < k2.len() && k2[j] == n2[i];
                assert(k[j] == k2[j]);
            } else {
                assert(k[k.len() - 1] == names[i]);
            }
        }
        assert forall|i: int|
            0 <= i < names.len() && mentions_selected(stored[i], selected) implies rm.contains(
                group_key(#[trigger] names[i]),
            ) by {
            if i < names.len() - 1 {
                assert(n2[i] == names[i] && s2[i] == stored[i]);
                let j = choose|j: int| 0 <= j < rm2.len() && rm2[j] == group_key(n2[i]);
                assert(rm[j] == rm2[j]);
            } else {
                assert(rm[rm.len() - 1] == group_key(names[i]));
            }
        }
    }
}

/// The console message after switching the balancer on or off.
pub fn toggle_message(on: bool) -> (r: &'static str)
    ensures
        r@ == (if on {
            "FTS Volume Balancer: enabled\n"@
        } else {
            "FTS Volume Balancer: disabled\n"@
        }),
{
    if on {
        "FTS Volume Balancer: enabled\n"
    } else {
        "FTS Volume Balancer: disabled\n"
    }
}

/// The console message when fewer than two tracks are selected for linking.
pub fn too_few_tracks_message() -> (r: &'static str)
    ensures
        r@ == "FTS Volume Balancer: select at least 2 tracks to link\n"@,
{
    "FTS Volume Balancer: select at least 2 tracks to link\n"
}

/// The console message after linking `tracks` tracks as group `name`.
pub fn linked_message(tracks: u64, name: &str) -> (r: String)
    ensures
        r@ == "FTS Volume Balancer: linked "@ + decimal(tracks as nat) + " tracks ("@ + name@
            + ")\n"@,
{
    let mut s = String::new();
    push_str(&mut s, "FTS Volume Balancer: linked ");
    push_decimal(&mut s, tracks);
    push_str(&mut s, " tracks (");
    push_str(&mut s, name);
    push_str(&mut s, ")\n");
    s
}

/// The console message after unlinking `removed` groups.
pub fn unlinked_message(removed: u64) -> (r: String)
    ensures
        r@ == "FTS Volume Balancer: unlinked "@ + decimal(removed as nat) + " group(s)\n"@,
{
    let mut s = String::new();
    push_str(&mut s, "FTS Volume Balancer: unlinked ");
    push_decimal(&mut s, removed);
    push_str(&mut s, " group(s)\n");
    s
}

/// Splitting after a separator: a part free of the separator becomes the
/// last piece.
proof fn lemma_split_append_part(x: Seq<char>, p: Seq<char>, sep: char)
    requires
        forall|i: int| 0 <= i < p.len() ==> p[i] != sep,
    ensures
        split(x.push(sep) + p, sep) == split(x, sep).push(p),
    decreases p.len(),
{
    if p.len() == 0 {
        assert(x.push(sep) + p =~= x.push(sep));
        lemma_split_push(x, sep, sep);
    } else {
        let q = p.drop_last();
        lemma_split_append_part(x, q, sep);
        assert(x.push(sep) + p =~= (x.push(sep) + q).push(p.last()));
        lemma_split_push(x.push(sep) + q, p.last(), sep);
        let r = split(x, sep).push(q);
        assert(q.push(p.last()) =~= p);
        assert(r.update(r.len() - 1, r.last().push(p.last())) =~= split(x, sep).push(p));
    }
}

/// A text free of the separator splits into itself.
proof fn lemma_split_single(p: Seq<char>, sep: char)
    requires
        forall|i: int| 0 <= i < p.len() ==> p[i] != sep,
    ensures
        split(p, sep) == seq![p],
    decreases p.len(),
{
    if p.len() > 0 {
        let q = p.drop_last();
        lemma_split_single(q, sep);
        assert(q.push(p.last()) =~= p);
        lemma_split_push(q, p.last(), sep);
        assert(seq![q].update(0, q.push(p.last())) =~= seq![p]);
    }
}

/// Splitting a join of separator-free parts gives the parts back.
proof fn lemma_split_join(parts: Seq<Seq<char>>, sep: char)
    requires
        parts.len() >= 1,
        forall|k: int, i: int| 0 <= k < parts.len() && 0 <= i < parts[k].len() ==> #[trigger] parts[k][i] != sep,
    ensures
        split(join(parts, sep), sep) == parts,
    decreases parts.len(),
{
    if parts.len() == 1 {
        assert forall|i: int| 0 <= i < parts[0].len() implies parts[0][i] != sep by {
            assert(parts[0][i] != sep);
        }
        lemma_split_single(parts[0], sep);
        assert(seq![parts[0]] =~= parts);
    } else {
        let d = parts.drop_last();
        assert forall|k: int, i: int| 0 <= k < d.len() && 0 <= i < d[k].len() implies #[trigger] d[k][i] != sep by {
            assert(d[k] == parts[k]);
            assert(parts[k][i] != sep);
        }
        lemma_split_join(d, sep);
        let last = parts.last();
        assert forall|i: int| 0 <= i < last.len() implies last[i] != sep by {
            assert(parts[parts.len() - 1][i] != sep);
        }
        lemma_split_append_part(join(d, sep), last, sep);
        assert(d.push(last) =~= parts);
    }
}

/// Filtering by a predicate every item meets keeps them all.
proof fn lemma_filter_all(s: Seq<Seq<char>>, p: spec_fn(Seq<char>) -> bool)
    requires
        forall|i: int| 0 <= i < s.len() ==> p(#[trigger] s[i]),
    ensures
        s.filter(p) == s,
    decreases s.len(),
{
    if s.len() == 0 {
        reveal(Seq::filter);
    } else {
        let d = s.drop_last();
        assert forall|i: int| 0 <= i < d.len() implies p(#[trigger] d[i]) by {
            assert(d[i] == s[i]);
        }
        lemma_filter_all(d, p);
        assert(p(s[s.len() - 1]));
        lemma_filter_push(d, s.last(), p);
        assert(d.push(s.last()) =~= s);
    }
}

/// Loading reads the stored groups one by one: the groups of two runs of
/// names are those of the first run followed by those of the second.
pub proof fn law_groups_load_entry_by_entry(
    n1: Seq<Seq<char>>,
    s1: Seq<Option<Seq<char>>>,
    n2: Seq<Seq<char>>,
    s2: Seq<Option<Seq<char>>>,
)
    requires
        n1.len() == s1.len(),
        n2.len() == s2.len(),
    ensures
        loaded_groups(n1 + n2, s1 + s2) == loaded_groups(n1, s1) + loaded_groups(n2, s2),
    decreases n2.len(),
{
    if n2.len() == 0 {
        assert(n1 + n2 =~= n1);
        assert(s1 + s2 =~= s1);
        assert(loaded_groups(n2, s2) =~= Seq::empty());
        assert(loaded_groups(n1, s1) + loaded_groups(n2, s2) =~= loaded_groups(n1, s1));
    } else {
        law_groups_load_entry_by_entry(n1, s1, n2.drop_last(), s2.drop_last());
        assert((n1 + n2).drop_last() =~= n1 + n2.drop_last());
        assert((s1 + s2).drop_last() =~= s1 + s2.drop_last());
        assert((n1 + n2).last() == n2.last());
        assert((s1 + s2).last() == s2.last());
        let a = loaded_groups(n1, s1);
        let b = loaded_groups(n2.drop_last(), s2.drop_last());
        match s2.last() {
            Some(v) => if group_members(v).len() >= 2 {
                let g = (group_key(n2.last()), group_members(v));
                assert((a + b).push(g) =~= a + b.push(g));
            },
            None => {},
        }
    }
}

/// A stored group is loaded exactly when it lists at least two members:
/// the link of any `n >= 2` tracks, stored as their GUIDs (each free of
/// `;` and not blank once normalised) joined by `;`, loads as one group
/// under `group.<name>` whose members are those `n` GUIDs normalised, in
/// order; a stored value with fewer than two members loads nothing.
pub proof fn law_group_loaded_with_all_members(name: Seq<char>, guids: Seq<Seq<char>>, v: Seq<char>)
    requires
        guids.len() >= 2,
        forall|k: int, i: int| 0 <= k < guids.len() && 0 <= i < guids[k].len() ==> #[trigger] guids[k][i] != ';',
        forall|k: int| 0 <= k < guids.len() ==> normalized_guid(#[trigger] guids[k]).len() > 0,
    ensures
        loaded_groups(seq![name], seq![Some(join(guids, ';'))]) == seq![
            (group_key(name), guids.map_values(|g: Seq<char>| normalized_guid(g))),
        ],
        group_members(v).len() < 2 ==> loaded_groups(seq![name], seq![Some(v)]).len() == 0,
{
    lemma_split_join(guids, ';');
    let m = guids.map_values(|g: Seq<char>| normalized_guid(g));
    assert forall|i: int| 0 <= i < m.len() implies (nonempty_pred())(#[trigger] m[i]) by {
        assert(normalized_guid(guids[i]).len() > 0);
    }
    lemma_filter_all(m, nonempty_pred());
    assert(group_members(join(guids, ';')) == m);
    let ns = seq![name];
    assert(ns.drop_last() =~= Seq::<Seq<char>>::empty());
    let st = seq![Some(join(guids, ';'))];
    assert(st.drop_last() =~= Seq::<Option<Seq<char>>>::empty());
    let sv = seq![Some(v)];
    assert(sv.drop_last() =~= Seq::<Option<Seq<char>>>::empty());
    assert(loaded_groups(Seq::<Seq<char>>::empty(), Seq::<Option<Seq<char>>>::empty()) =~= Seq::empty());
    assert(loaded_groups(ns, st) =~= seq![(group_key(name), m)]);
}

} // verus!
