//! MIDI editor "modes". Switching into a MIDI mode (e.g. `Drums`)
//! activates a matching input workflow (`midi-<slug>`) for its keybinds and
//! applies the mode's MIDI-editor setup.
//!
//! The current mode and the change listeners are held by the host in a
//! [`MidiModeState`] and a [`MidiModeListeners`]; the transitions here say
//! when a change happened, so the host knows when to fire the listeners.
use vstd::prelude::*;
use crate::text::{chars_of, lower, to_ascii_lower, trim, trim_range, ascii_lower};

verus! {

/// A MIDI editor mode.
#[derive(Debug, Clone, Copy, PartialEq, Eq, Structural)]
pub enum MidiMode {
    /// Drum programming: drum-map note names, triangle note view, flam, etc.
    Drums,
}

/// All modes, in cycle order.
pub open spec fn all_modes() -> Seq<MidiMode> {
    seq![MidiMode::Drums]
}

/// Stable lowercase identifier of a mode.
pub open spec fn slug_of(m: MidiMode) -> Seq<char> {
    match m {
        MidiMode::Drums => seq!['d', 'r', 'u', 'm', 's'],
    }
}

/// Title-cased display name of a mode.
pub open spec fn display_name_of(m: MidiMode) -> Seq<char> {
    match m {
        MidiMode::Drums => seq!['D', 'r', 'u', 'm', 's'],
    }
}

/// The mode a slug names: compared case-insensitively, surrounding
/// whitespace ignored.
pub open spec fn mode_for_slug(s: Seq<char>) -> Option<MidiMode> {
    if lower(trim(s)) == slug_of(MidiMode::Drums) {
        Some(MidiMode::Drums)
    } else {
        None
    }
}

/// The mode after `m` in cycle order (wrapping).
pub open spec fn next_mode(m: MidiMode) -> MidiMode {
    let i = all_modes().index_of(m);
    all_modes()[(i + 1) % all_modes().len() as int]
}

impl MidiMode {
    /// All modes, in cycle order.
    pub fn all() -> (r: Vec<MidiMode>)
        ensures
            r@ == all_modes(),
    {
        let r = vec![MidiMode::Drums];
        assert(r@ =~= all_modes());
        r
    }

    /// Stable lowercase identifier used in workflow ids and action ids.
    pub fn slug(self) -> (r: &'static str)
        ensures
            r@ == slug_of(self),
    {
        match self {
            MidiMode::Drums => {
                proof {
                    reveal_strlit("drums");
                }
                "drums"
            },
        }
    }

    /// Reverse of [`MidiMode::slug`]. Case-insensitive, trims whitespace.
    pub fn from_slug(slug: &str) -> (r: Option<MidiMode>)
        ensures
            r == mode_for_slug(slug@),
    {
        let v = chars_of(slug);
        assert(v@.subrange(0, v@.len() as int) =~= slug@);
        let (a, b) = trim_range(&v, 0, v.len());
        let ghost t = v@.subrange(a as int, b as int);
        let target = ['d', 'r', 'u', 'm', 's'];
        if b - a != 5 {
            assert(lower(t).len() != 5);
            return None;
        }
        let mut i: usize = 0;
        while i < 5
            invariant
                a <= b <= v@.len(),
                b - a == 5,
                t == v@.subrange(a as int, b as int),
                t == trim(slug@),
                target@ == slug_of(MidiMode::Drums),
                i <= 5,
                forall|j: int| 0 <= j < i ==> ascii_lower(t[j]) == target@[j],
            decreases 5 - i,
        {
            if to_ascii_lower(v[a + i]) != target[i] {
                assert(lower(t)[i as int] != slug_of(MidiMode::Drums)[i as int]);
                return None;
            }
            i += 1;
        }
        assert(lower(t) =~= slug_of(MidiMode::Drums));
        Some(MidiMode::Drums)
    }

    /// Title-cased display name.
    pub fn display_name(self) -> (r: &'static str)
        ensures
            r@ == display_name_of(self),
    {
        match self {
            MidiMode::Drums => {
                proof {
                    reveal_strlit("Drums");
                }
                "Drums"
            },
        }
    }
}

// ---------------------------------------------------------------------
// Current mode
// ---------------------------------------------------------------------

/// The active MIDI mode; `None` until a mode is first entered.
pub struct MidiModeState {
    pub current: Option<MidiMode>,
}

impl MidiModeState {
    pub fn new() -> (r: MidiModeState)
        ensures
            r.current is None,
    {
        MidiModeState { current: None }
    }
}

/// The currently active MIDI mode, or `None` if none has been entered.
pub fn current_midi_mode(state: &MidiModeState) -> (r: Option<MidiMode>)
    ensures
        r == state.current,
{
    state.current
}

/// Switch into `mode`. Returns whether the mode changed, i.e. whether the
/// change listeners are to fire (not when `mode` was already active).
pub fn set_midi_mode(state: &mut MidiModeState, mode: MidiMode) -> (r: bool)
    ensures
        final(state).current == Some(mode),
        r == (old(state).current != Some(mode)),
{
    if state.current == Some(mode) {
        return false;
    }
    state.current = Some(mode);
    true
}

/// Cycle to the next MIDI mode (wrapping); enters the first mode if none is
/// active. Returns the mode entered when it differs from the previous one
/// (the listeners fire with it).
pub fn cycle_midi_mode(state: &mut MidiModeState) -> (r: Option<MidiMode>)
    ensures
        final(state).current == Some(
            match old(state).current {
                None => all_modes()[0],
                Some(m) => next_mode(m),
            },
        ),
        r == (if old(state).current != final(state).current {
            final(state).current
        } else {
            None
        }),
{
    let all = MidiMode::all();
    let next = match state.current {
        None => all[0],
        Some(current) => {
            let mut idx: usize = 0;
            let mut k: usize = 0;
            while k < all.len()
                invariant
                    all@ == all_modes(),
                    k <= all@.len(),
                    idx < all@.len(),
                    forall|j: int| 0 <= j < k ==> all@[j] != current,
                decreases all.len() - k,
            {
                if all[k] == current {
                    idx = k;
                    break;
                }
                k += 1;
            }
            proof {
                assert(all_modes()[0] == current);
                assert(all_modes().index_of(current) == 0);
            }
            all[(idx + 1) % all.len()]
        },
    };
    if set_midi_mode(state, next) {
        Some(next)
    } else {
        None
    }
}

// ---------------------------------------------------------------------
// Change listeners
// ---------------------------------------------------------------------

/// Callbacks fired, in registration order, whenever the mode changes.
pub struct MidiModeListeners<L> {
    listeners: Vec<L>,
}

impl<L> View for MidiModeListeners<L> {
    type V = Seq<L>;

    closed spec fn view(&self) -> Seq<L> {
        self.listeners@
    }
}

impl<L> MidiModeListeners<L> {
    pub fn new() -> (r: MidiModeListeners<L>)
        ensures
            r@ == Seq::<L>::empty(),
    {
        MidiModeListeners { listeners: Vec::new() }
    }

    /// The listeners, in the order they fire.
    pub fn listeners(&self) -> (r: &Vec<L>)
        ensures
            r@ == self@,
    {
        &self.listeners
    }
}

/// Register a callback fired whenever the mode changes.
pub fn add_midi_mode_change_listener<L>(listeners: &mut MidiModeListeners<L>, listener: L)
    ensures
        final(listeners)@ == old(listeners)@.push(listener),
{
    listeners.listeners.push(listener);
}

// ---------------------------------------------------------------------
// Laws
// ---------------------------------------------------------------------

/// A mode's slug reads back as that mode, and the slug is the lowercase
/// display name.
pub proof fn law_slug_round_trip(m: MidiMode)
    ensures
        mode_for_slug(slug_of(m)) == Some(m),
        slug_of(m) == lower(display_name_of(m)),
{
    let s = slug_of(m);
    assert(crate::text::trim_start_by(s, crate::text::ws_pred()) == s);
    assert(crate::text::trim_end_by(s, crate::text::ws_pred()) == s);
    assert(lower(s) =~= s);
    assert(lower(display_name_of(m)) =~= s);
}

/// Cycling from no mode enters the first mode, and cycling visits every
/// mode: the mode after each is again a mode of the cycle.
pub proof fn law_cycle_stays_in_modes(m: MidiMode)
    ensures
        all_modes().contains(next_mode(m)),
        all_modes()[0] == MidiMode::Drums,
{
    assert(all_modes()[0] == m);
    assert(all_modes().index_of(m) == 0);
}

} // verus!
