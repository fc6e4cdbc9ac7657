//! Live MIDI mirror: source tracks hold score-time MIDI, and each has a
//! hidden mirror track with the library-adjusted copy, regenerated (never
//! hand-edited) whenever a source item changes.
//!
//! Every few timer ticks the host hashes each source item's MIDI content;
//! the cache here remembers, per source item GUID, the hash at its last
//! regeneration and the mirror track it was written to, so only changed
//! items are rebuilt and the copies of vanished items are removed.
//! Disabling the mirror (or relinking, or a forced regeneration) drops the
//! cache, so everything is rebuilt on the next poll.
use vstd::prelude::*;
use crate::text::{push_decimal, push_str, str_eq};

verus! {

/// Rescan cadence in timer ticks (a ~30 Hz timer gives a ~10 Hz diff).
pub const POLL_TICKS: u32 = 3;

/// The articulation profile a source track is mirrored with.
#[derive(Debug, Clone, Copy, PartialEq, Eq, Structural)]
pub enum MirrorProfile {
    Strings,
    Woodwinds,
    Brass,
    BrassTrumpet,
    Generic,
    Harp,
}

/// The profile a track's override names, if any.
pub open spec fn profile_named(name: Seq<char>) -> Option<MirrorProfile> {
    if name == "strings"@ {
        Some(MirrorProfile::Strings)
    } else if name == "woodwinds"@ {
        Some(MirrorProfile::Woodwinds)
    } else if name == "brass"@ {
        Some(MirrorProfile::Brass)
    } else if name == "brass_trumpet"@ {
        Some(MirrorProfile::BrassTrumpet)
    } else if name == "generic"@ {
        Some(MirrorProfile::Generic)
    } else if name == "harp"@ {
        Some(MirrorProfile::Harp)
    } else {
        None
    }
}

/// The profile a track's override names (exact lowercase names).
pub fn parse_profile(name: &str) -> (r: Option<MirrorProfile>)
    ensures
        r == profile_named(name@),
{
    if str_eq(name, "strings") {
        Some(MirrorProfile::Strings)
    } else if str_eq(name, "woodwinds") {
        Some(MirrorProfile::Woodwinds)
    } else if str_eq(name, "brass") {
        Some(MirrorProfile::Brass)
    } else if str_eq(name, "brass_trumpet") {
        Some(MirrorProfile::BrassTrumpet)
    } else if str_eq(name, "generic") {
        Some(MirrorProfile::Generic)
    } else if str_eq(name, "harp") {
        Some(MirrorProfile::Harp)
    } else {
        None
    }
}

/// One remembered source item.
pub struct CacheEntry {
    pub source_guid: String,
    /// Content hash at the last regeneration.
    pub hash: u64,
    /// The mirror track it was written to.
    pub mirror_guid: String,
}

/// The mirror switch, the poll tick counter and the regeneration cache
/// (`None`: everything is rebuilt on the next poll).
pub struct Mirror {
    enabled: bool,
    tick: u32,
    cache: Option<Vec<CacheEntry>>,
}

/// The mirror as plain values: per source item GUID, the hash and mirror
/// track GUID of its last regeneration.
pub struct MirrorState {
    pub enabled: bool,
    pub tick: u32,
    pub cache: Option<Map<Seq<char>, (u64, Seq<char>)>>,
}

pub open spec fn guids(v: Seq<CacheEntry>) -> Seq<Seq<char>> {
    v.map_values(|e: CacheEntry| e.source_guid@)
}

/// The map a cache vector stands for.
pub open spec fn cache_map(v: Seq<CacheEntry>) -> Map<Seq<char>, (u64, Seq<char>)>
    decreases v.len(),
{
    if v.len() == 0 {
        Map::empty()
    } else {
        cache_map(v.drop_last()).insert(v.last().source_guid@, (v.last().hash, v.last().mirror_guid@))
    }
}

pub open spec fn cache_view(c: Option<Vec<CacheEntry>>) -> Option<Map<Seq<char>, (u64, Seq<char>)>> {
    match c {
        Some(v) => Some(cache_map(v@)),
        None => None,
    }
}

impl View for Mirror {
    type V = MirrorState;

    closed spec fn view(&self) -> MirrorState {
        MirrorState { enabled: self.enabled, tick: self.tick, cache: cache_view(self.cache) }
    }
}

/// The cache after a poll started: an empty one when there was none.
pub open spec fn started_cache(c: Option<Map<Seq<char>, (u64, Seq<char>)>>) -> Map<
    Seq<char>,
    (u64, Seq<char>),
> {
    match c {
        Some(m) => m,
        None => Map::empty(),
    }
}

proof fn lemma_cache_lookup(v: Seq<CacheEntry>, j: int)
    requires
        guids(v).no_duplicates(),
        0 <= j < v.len(),
    ensures
        cache_map(v).dom().contains(v[j].source_guid@),
        cache_map(v)[v[j].source_guid@] == (v[j].hash, v[j].mirror_guid@),
    decreases v.len(),
{
    if j < v.len() - 1 {
        assert(guids(v.drop_last()) =~= guids(v).drop_last());
        assert(guids(v)[j] != guids(v)[v.len() - 1]);
        lemma_cache_lookup(v.drop_last(), j);
    }
}

proof fn lemma_cache_absent(v: Seq<CacheEntry>, x: Seq<char>)
    requires
        forall|j: int| 0 <= j < v.len() ==> v[j].source_guid@ != x,
    ensures
        !cache_map(v).dom().contains(x),
    decreases v.len(),
{
    if v.len() > 0 {
        lemma_cache_absent(v.drop_last(), x);
    }
}

proof fn lemma_cache_update(v: Seq<CacheEntry>, j: int, e: CacheEntry)
    requires
        guids(v).no_duplicates(),
        0 <= j < v.len(),
        v[j].source_guid@ == e.source_guid@,
    ensures
        cache_map(v.update(j, e)) == cache_map(v).insert(e.source_guid@, (e.hash, e.mirror_guid@)),
        guids(v.update(j, e)) == guids(v),
    decreases v.len(),
{
    let w = v.update(j, e);
    assert(guids(w) =~= guids(v));
    if j == v.len() - 1 {
        assert(w.drop_last() =~= v.drop_last());
        assert(cache_map(w) =~= cache_map(v).insert(e.source_guid@, (e.hash, e.mirror_guid@)));
    } else {
        assert(w.drop_last() =~= v.drop_last().update(j, e));
        assert(guids(v.drop_last()) =~= guids(v).drop_last());
        lemma_cache_update(v.drop_last(), j, e);
        assert(guids(v)[j] != guids(v)[v.len() - 1]);
        assert(cache_map(w) =~= cache_map(v).insert(e.source_guid@, (e.hash, e.mirror_guid@)));
    }
}

proof fn lemma_cache_remove(v: Seq<CacheEntry>, j: int)
    requires
        guids(v).no_duplicates(),
        0 <= j < v.len(),
    ensures
        cache_map(v.remove(j)) == cache_map(v).remove(v[j].source_guid@),
        guids(v.remove(j)).no_duplicates(),
    decreases v.len(),
{
    let w = v.remove(j);
    let x = v[j].source_guid@;
    assert(guids(w) =~= guids(v).remove(j));
    assert forall|a: int, b: int| 0 <= a < b < guids(w).len() implies guids(w)[a] != guids(w)[b] by {
        let a2 = if a < j { a } else { a + 1 };
        let b2 = if b < j { b } else { b + 1 };
        assert(guids(w)[a] == guids(v)[a2]);
        assert(guids(w)[b] == guids(v)[b2]);
    }
    if j == v.len() - 1 {
        assert(w =~= v.drop_last());
        assert forall|k: int| 0 <= k < w.len() implies w[k].source_guid@ != x by {
            assert(guids(v)[k] != guids(v)[j]);
        }
        lemma_cache_absent(w, x);
        assert(cache_map(w) =~= cache_map(v).remove(x));
    } else {
        assert(w.drop_last() =~= v.drop_last().remove(j));
        assert(w.last() == v.last());
        assert(guids(v.drop_last()) =~= guids(v).drop_last());
        lemma_cache_remove(v.drop_last(), j);
        assert(guids(v)[j] != guids(v)[v.len() - 1]);
        assert(cache_map(w) =~= cache_map(v).remove(x));
    }
}

impl Mirror {
    #[verifier::type_invariant]
    spec fn unique_guids(self) -> bool {
        match self.cache {
            Some(v) => guids(v@).no_duplicates(),
            None => true,
        }
    }

    /// Mirroring on, nothing cached yet.
    pub fn new() -> (r: Mirror)
        ensures
            r@.enabled,
            r@.tick == 0,
            r@.cache is None,
    {
        Mirror { enabled: true, tick: 0, cache: None }
    }

    fn position(v: &Vec<CacheEntry>, guid: &str) -> (r: Option<usize>)
        ensures
            match r {
                Some(j) => j < v@.len() && v@[j as int].source_guid@ == guid@,
                None => forall|j: int| 0 <= j < v@.len() ==> v@[j].source_guid@ != guid@,
            },
    {
        let mut j: usize = 0;
        while j < v.len()
            invariant
                j <= v@.len(),
                forall|k: int| 0 <= k < j ==> v@[k].source_guid@ != guid@,
            decreases v.len() - j,
        {
            if str_eq(v[j].source_guid.as_str(), guid) {
                return Some(j);
            }
            j += 1;
        }
        None
    }
}

/// Whether mirroring is on.
pub fn is_enabled(m: &Mirror) -> (r: bool)
    ensures
        r == m@.enabled,
{
    m.enabled
}

/// Switch mirroring on or off; switching off drops the cache, so
/// re-enabling rebuilds every mirror.
pub fn set_enabled(m: &mut Mirror, on: bool)
    ensures
        final(m)@.enabled == on,
        final(m)@.tick == old(m)@.tick,
        final(m)@.cache == (if on {
            old(m)@.cache
        } else {
            None
        }),
{
    proof {
        use_type_invariant(&*m);
    }
    m.enabled = on;
    if !on {
        m.cache = None;
    }
}

/// Drop the cache: every mirror is rebuilt on the next poll (after linking
/// tracks, or on request).
pub fn regenerate_all(m: &mut Mirror)
    ensures
        final(m)@ == (MirrorState { cache: None, ..old(m)@ }),
{
    proof {
        use_type_invariant(&*m);
    }
    m.cache = None;
}

/// A timer tick: whether this tick rescans. While mirroring is off nothing
/// happens (the counter does not move). Otherwise the counter advances
/// (wrapping) and every `POLL_TICKS`-th tick rescans, starting with an
/// empty cache when there was none.
pub fn poll(m: &mut Mirror) -> (due: bool)
    ensures
        !old(m)@.enabled ==> !due && final(m)@ == old(m)@,
        old(m)@.enabled ==> {
            &&& due == (old(m)@.tick % POLL_TICKS == 0)
            &&& final(m)@.enabled
            &&& final(m)@.tick == (if old(m)@.tick == u32::MAX {
                0
            } else {
                (old(m)@.tick + 1) as u32
            })
            &&& final(m)@.cache == (if due {
                Some(started_cache(old(m)@.cache))
            } else {
                old(m)@.cache
            })
        },
{
    proof {
        use_type_invariant(&*m);
    }
    if !m.enabled {
        return false;
    }
    let tick = m.tick;
    m.tick = if tick == u32::MAX {
        0
    } else {
        tick + 1
    };
    if tick % POLL_TICKS != 0 {
        return false;
    }
    if m.cache.is_none() {
        m.cache = Some(Vec::new());
        assert(cache_map(Seq::<CacheEntry>::empty()) =~= Map::empty());
    }
    true
}

/// Whether a source item must be regenerated: its hash differs from the
/// one cached (or it is not cached).
pub fn needs_regeneration(m: &Mirror, guid: &str, hash: u64) -> (r: bool)
    ensures
        r == stale_item(m@.cache, guid@, hash),
{
    proof {
        use_type_invariant(m);
    }
    match &m.cache {
        None => true,
        Some(v) => match Mirror::position(v, guid) {
            Some(j) => {
                proof {
                    lemma_cache_lookup(v@, j as int);
                }
                v[j].hash != hash
            },
            None => {
                proof {
                    lemma_cache_absent(v@, guid@);
                }
                true
            },
        },
    }
}

/// Remember a regeneration: the item's hash and mirror track.
pub fn record(m: &mut Mirror, guid: String, hash: u64, mirror_guid: String)
    ensures
        final(m)@.enabled == old(m)@.enabled,
        final(m)@.tick == old(m)@.tick,
        final(m)@.cache == Some(started_cache(old(m)@.cache).insert(guid@, (hash, mirror_guid@))),
{
    proof {
        use_type_invariant(&*m);
    }
    let mut taken: Option<Vec<CacheEntry>> = None;
    std::mem::swap(&mut taken, &mut m.cache);
    let mut entries: Vec<CacheEntry> = match taken {
        Some(v) => v,
        None => Vec::new(),
    };
    let ghost v0 = entries@;
    assert(cache_map(v0) == started_cache(old(m)@.cache)) by {
        assert(cache_map(Seq::<CacheEntry>::empty()) =~= Map::empty());
    }
    let e = CacheEntry { source_guid: guid, hash, mirror_guid };
    let ghost ev = e;
    match Mirror::position(&entries, e.source_guid.as_str()) {
        Some(j) => {
            proof {
                lemma_cache_update(v0, j as int, ev);
            }
            entries.set(j, e);
        },
        None => {
            entries.push(e);
            proof {
                assert(entries@.drop_last() =~= v0);
                assert(guids(entries@) =~= guids(v0).push(ev.source_guid@));
                assert forall|x: int, y: int|
                    0 <= x < y < guids(entries@).len() implies guids(entries@)[x] != guids(
                        entries@,
                    )[y] by {
                    if y < v0.len() {
                        assert(guids(v0)[x] != guids(v0)[y]);
                    } else {
                        assert(v0[x].source_guid@ != ev.source_guid@);
                    }
                }
            }
        },
    }
    m.cache = Some(entries);
}

/// Forget a source item (its mirror copies were removed).
pub fn forget(m: &mut Mirror, guid: &str)
    ensures
        final(m)@.enabled == old(m)@.enabled,
        final(m)@.tick == old(m)@.tick,
        final(m)@.cache == match old(m)@.cache {
            Some(c) => Some(c.remove(guid@)),
            None => None,
        },
{
    proof {
        use_type_invariant(&*m);
    }
    let mut taken: Option<Vec<CacheEntry>> = None;
    std::mem::swap(&mut taken, &mut m.cache);
    match taken {
        None => {},
        Some(mut entries) => {
            let ghost v0 = entries@;
            match Mirror::position(&entries, guid) {
                Some(j) => {
                    proof {
                        lemma_cache_remove(v0, j as int);
                    }
                    entries.remove(j);
                },
                None => {
                    proof {
                        lemma_cache_absent(v0, guid@);
                        assert(cache_map(v0).remove(guid@) =~= cache_map(v0));
                    }
                },
            }
            m.cache = Some(entries);
        },
    }
}

/// Whether `guid` is among `seen`.
fn seen_contains(seen: &Vec<String>, guid: &str) -> (r: bool)
    ensures
        r == !unseen(seen@, guid@),
{
    let mut k: usize = 0;
    while k < seen.len()
        invariant
            k <= seen@.len(),
            forall|i: int| 0 <= i < k ==> #[trigger] seen@[i]@ != guid@,
        decreases seen.len() - k,
    {
        if str_eq(seen[k].as_str(), guid) {
            return true;
        }
        k += 1;
    }
    false
}

/// Whether no string of `seen` is `g`.
pub open spec fn unseen(seen: Seq<String>, g: Seq<char>) -> bool {
    forall|k: int| 0 <= k < seen.len() ==> #[trigger] seen[k]@ != g
}

/// The cached source items not seen in this poll (they vanished): their
/// GUIDs and mirror tracks, each once, whose copies the host deletes before
/// forgetting them.
pub fn stale_entries(m: &Mirror, seen: &Vec<String>) -> (r: Vec<(String, String)>)
    ensures
        m@.cache is None ==> r@.len() == 0,
        m@.cache matches Some(c) ==> {
            &&& forall|i: int|
                0 <= i < r@.len() ==> {
                    &&& #[trigger] c.dom().contains(r@[i].0@)
                    &&& c[r@[i].0@].1 == r@[i].1@
                    &&& unseen(seen@, r@[i].0@)
                }
            &&& forall|g: Seq<char>|
                #[trigger] c.dom().contains(g) && unseen(seen@, g) ==> exists|i: int|
                    0 <= i < r@.len() && r@[i].0@ == g
            &&& forall|i: int, j: int| 0 <= i < j < r@.len() ==> r@[i].0@ != r@[j].0@
        },
{
    proof {
        use_type_invariant(m);
    }
    let mut out: Vec<(String, String)> = Vec::new();
    match &m.cache {
        None => out,
        Some(v) => {
            let ghost c = cache_map(v@);
            let ghost mut src: Seq<int> = Seq::empty();
            let mut i: usize = 0;
            while i < v.len()
                invariant
                    i <= v@.len(),
                    guids(v@).no_duplicates(),
                    c == cache_map(v@),
                    src.len() == out@.len(),
                    forall|a: int|
                        0 <= a < out@.len() ==> {
                            &&& 0 <= #[trigger] src[a] < i
                            &&& v@[src[a]].source_guid@ == out@[a].0@
                            &&& v@[src[a]].mirror_guid@ == out@[a].1@
                            &&& unseen(seen@, out@[a].0@)
                        },
                    forall|a1: int, a2: int| 0 <= a1 < a2 < out@.len() ==> src[a1] < src[a2],
                    forall|b: int|
                        0 <= b < i && unseen(seen@, #[trigger] v@[b].source_guid@) ==> exists|a: int|
                            0 <= a < src.len() && src[a] == b,
                decreases v.len() - i,
            {
                let ghost src0 = src;
                if !seen_contains(seen, v[i].source_guid.as_str()) {
                    out.push((v[i].source_guid.clone(), v[i].mirror_guid.clone()));
                    proof {
                        src = src.push(i as int);
                    }
                }
                proof {
                    assert forall|b: int|
                        0 <= b < i + 1 && unseen(seen@, #[trigger] v@[b].source_guid@) implies exists|a: int|
                        0 <= a < src.len() && src[a] == b by {
                        if b == i {
                            assert(src[src.len() - 1] == b);
                        } else {
                            let a = choose|a: int| 0 <= a < src0.len() && src0[a] == b;
                            assert(src[a] == b);
                        }
                    }
                }
                i += 1;
            }
            proof {
                assert forall|a: int| 0 <= a < out@.len() implies {
                    &&& #[trigger] c.dom().contains(out@[a].0@)
                    &&& c[out@[a].0@].1 == out@[a].1@
                    &&& unseen(seen@, out@[a].0@)
                } by {
                    assert(0 <= src[a] < v@.len());
                    lemma_cache_lookup(v@, src[a]);
                }
                assert forall|g: Seq<char>|
                    #[trigger] c.dom().contains(g) && unseen(seen@, g) implies exists|a: int|
                    0 <= a < out@.len() && out@[a].0@ == g by {
                    if forall|b: int| 0 <= b < v@.len() ==> v@[b].source_guid@ != g {
                        lemma_cache_absent(v@, g);
                    } else {
                        let b = choose|b: int| 0 <= b < v@.len() && v@[b].source_guid@ == g;
                        assert(unseen(seen@, v@[b].source_guid@));
                        let a = choose|a: int| 0 <= a < src.len() && src[a] == b;
                        assert(out@[a].0@ == g);
                    }
                }
                assert forall|a1: int, a2: int| 0 <= a1 < a2 < out@.len() implies out@[a1].0@
                    != out@[a2].0@ by {
                    assert(src[a1] < src[a2]);
                    assert(0 <= src[a1] && src[a2] < v@.len());
                    assert(guids(v@)[src[a1]] != guids(v@)[src[a2]]);
                }
            }
            out
        },
    }
}

/// The indices, last first, of the mirror items tagged with `source_guid`
/// (the stale copies to delete, deleting from the end so that the other
/// indices stay valid), given each item's tag (`None` when untagged).
pub fn tagged_items(tags: &Vec<Option<String>>, source_guid: &str) -> (r: Vec<usize>)
    ensures
        forall|i: int| 0 <= i < r@.len() ==> {
            &&& r@[i] < tags@.len()
            &&& #[trigger] tags@[r@[i] as int] matches Some(t) && t@ == source_guid@
        },
        forall|k: int|
            0 <= k < tags@.len() && (#[trigger] tags@[k] matches Some(t) && t@ == source_guid@)
                ==> exists|i: int| 0 <= i < r@.len() && r@[i] == k,
        forall|i: int, j: int| 0 <= i < j < r@.len() ==> r@[i] > r@[j],
{
    let mut out: Vec<usize> = Vec::new();
    let mut k = tags.len();
    while k > 0
        invariant
            k <= tags@.len(),
            forall|i: int| 0 <= i < out@.len() ==> k <= #[trigger] out@[i] < tags@.len(),
            forall|i: int|
                0 <= i < out@.len() ==> (#[trigger] tags@[out@[i] as int] matches Some(t) && t@
                    == source_guid@),
            forall|x: int|
                k <= x < tags@.len() && (#[trigger] tags@[x] matches Some(t) && t@ == source_guid@)
                    ==> exists|i: int| 0 <= i < out@.len() && out@[i] == x,
            forall|i: int, j: int| 0 <= i < j < out@.len() ==> out@[i] > out@[j],
        decreases k,
    {
        k -= 1;
        let hit = match &tags[k] {
            Some(t) => str_eq(t.as_str(), source_guid),
            None => false,
        };
        let ghost out0 = out@;
        if hit {
            out.push(k);
        }
        proof {
            assert forall|x: int|
                k <= x < tags@.len() && (#[trigger] tags@[x] matches Some(t) && t@
                    == source_guid@) implies exists|i: int| 0 <= i < out@.len() && out@[i] == x by {
                if x == k {
                    assert(out@[out@.len() - 1] == x);
                } else {
                    let i = choose|i: int| 0 <= i < out0.len() && out0[i] == x;
                    assert(out@[i] == x);
                }
            }
        }
    }
    out
}

/// The name of a source track's mirror track.
pub open spec fn mirror_name_of(source_name: Seq<char>) -> Seq<char> {
    source_name + " [mirror]"@
}

/// The name of a source track's mirror track.
pub fn mirror_track_name(source_name: &str) -> (r: String)
    ensures
        r@ == mirror_name_of(source_name@),
{
    let mut s = String::new();
    push_str(&mut s, source_name);
    push_str(&mut s, " [mirror]");
    s
}

/// Where the mirror track is inserted, given the source's 1-based track
/// number: right after the source (at that 0-based index), or nowhere when
/// the number is not positive.
pub fn mirror_insert_index(track_number: i32) -> (r: Option<i32>)
    ensures
        r == (if track_number > 0 {
            Some(track_number)
        } else {
            None
        }),
{
    if track_number > 0 {
        Some(track_number)
    } else {
        None
    }
}

/// A 0-based MIDI channel as the mirror engine's 1-based channel (1..=16).
pub fn engine_channel(chan: i32) -> (r: u8)
    ensures
        r as int == (if chan + 1 < 1 {
            1
        } else if chan + 1 > 16 {
            16
        } else {
            chan + 1
        }),
{
    if chan < 0 {
        1
    } else if chan > 15 {
        16
    } else {
        (chan + 1) as u8
    }
}

/// The mirror engine's 1-based channel as a 0-based MIDI channel (0..=15).
pub fn midi_channel(chan: u8) -> (r: i32)
    ensures
        r as int == (if chan as int - 1 < 0 {
            0
        } else if chan as int - 1 > 15 {
            15
        } else {
            chan as int - 1
        }),
{
    let c = chan as i32 - 1;
    if c < 0 {
        0
    } else if c > 15 {
        15
    } else {
        c
    }
}

/// A note velocity as the mirror engine takes it (1..=127).
pub fn engine_velocity(vel: i32) -> (r: u8)
    ensures
        r as int == (if vel < 1 {
            1
        } else if vel > 127 {
            127
        } else {
            vel as int
        }),
{
    if vel < 1 {
        1
    } else if vel > 127 {
        127
    } else {
        vel as u8
    }
}

/// Whether a MIDI event is mirrored: a CC event (status `0xB0`) that was
/// read and is not muted.
pub fn mirrors_cc(read_ok: bool, muted: bool, status: i32) -> (r: bool)
    ensures
        r == (read_ok && !muted && status == 0xB0),
{
    read_ok && !muted && status == 0xB0
}

pub open spec fn count_text(verb: Seq<char>, n: nat) -> Seq<char> {
    "FTS Mirror: "@ + verb + " "@ + crate::text::decimal(n) + " track(s)\n"@
}

/// The console message after linking `n` tracks.
pub fn linked_message(n: u64) -> (r: String)
    ensures
        r@ == count_text("linked"@, n as nat),
{
    let mut s = String::new();
    push_str(&mut s, "FTS Mirror: linked ");
    push_decimal(&mut s, n);
    push_str(&mut s, " track(s)\n");
    proof {
        reveal_strlit("FTS Mirror: linked ");
        reveal_strlit("FTS Mirror: ");
        reveal_strlit("linked");
        reveal_strlit(" ");
    }
    assert(s@ =~= count_text("linked"@, n as nat));
    s
}

/// The console message after unlinking `n` tracks.
pub fn unlinked_message(n: u64) -> (r: String)
    ensures
        r@ == count_text("unlinked"@, n as nat),
{
    let mut s = String::new();
    push_str(&mut s, "FTS Mirror: unlinked ");
    push_decimal(&mut s, n);
    push_str(&mut s, " track(s)\n");
    proof {
        reveal_strlit("FTS Mirror: unlinked ");
        reveal_strlit("FTS Mirror: ");
        reveal_strlit("unlinked");
        reveal_strlit(" ");
    }
    assert(s@ =~= count_text("unlinked"@, n as nat));
    s
}

/// The console message after switching mirroring on or off.
pub fn toggle_message(on: bool) -> (r: &'static str)
    ensures
        r@ == (if on {
            "FTS Mirror: enabled\n"@
        } else {
            "FTS Mirror: disabled\n"@
        }),
{
    if on {
        "FTS Mirror: enabled\n"
    } else {
        "FTS Mirror: disabled\n"
    }
}

/// Whether an item must be regenerated, as [`needs_regeneration`] decides
/// it over the cache.
pub open spec fn stale_item(cache: Option<Map<Seq<char>, (u64, Seq<char>)>>, guid: Seq<char>, hash: u64) -> bool {
    !(cache matches Some(c) && c.dom().contains(guid) && c[guid].0 == hash)
}

/// After a regeneration is recorded, the same content of that item is not
/// regenerated again, while changed content is.
pub proof fn law_recorded_is_current(
    cache: Option<Map<Seq<char>, (u64, Seq<char>)>>,
    guid: Seq<char>,
    hash: u64,
    mirror: Seq<char>,
    later: u64,
)
    ensures
        stale_item(Some(started_cache(cache).insert(guid, (hash, mirror))), guid, later) == (later
            != hash),
{
}

/// Switching mirroring off forgets every regeneration, so every item is
/// regenerated once it is switched on again.
pub proof fn law_disable_forgets_all(guid: Seq<char>, hash: u64)
    ensures
        stale_item(None, guid, hash),
{
}

} // verus!
