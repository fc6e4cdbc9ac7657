//! MIDI editor mode ↔ input workflow bridge.
//!
//! On a [`MidiMode`] change the host activates the input workflow
//! `midi-<slug>` (its bindings supply the mode's MIDI keybinds) and runs
//! the mode's MIDI-editor setup commands on the active editor.
use vstd::prelude::*;
use crate::midi_mode::{add_midi_mode_change_listener, slug_of, MidiMode, MidiModeListeners};
use crate::text::push_str;

verus! {

/// The workflow id of a mode: `midi-<slug>`.
pub open spec fn workflow_id_of(m: MidiMode) -> Seq<char> {
    seq!['m', 'i', 'd', 'i', '-'] + slug_of(m)
}

/// MIDI Editor section commands run when entering a mode.
pub open spec fn setup_commands_of(m: MidiMode) -> Seq<i32> {
    match m {
        // Named notes (drum map), events as triangles, note names on notes.
        MidiMode::Drums => seq![40043, 40448, 40045],
    }
}

/// Workflow id for a mode. Must match the basename of the mode's workflow
/// file.
pub fn workflow_id_for(mode: MidiMode) -> (r: String)
    ensures
        r@ == workflow_id_of(mode),
{
    let mut id = String::new();
    push_str(&mut id, "midi-");
    push_str(&mut id, mode.slug());
    proof {
        reveal_strlit("midi-");
        assert(id@ =~= workflow_id_of(mode));
    }
    id
}

/// MIDI Editor section commands run on the active editor when entering a
/// mode.
pub fn setup_commands_for(mode: MidiMode) -> (r: Vec<i32>)
    ensures
        r@ == setup_commands_of(mode),
{
    match mode {
        MidiMode::Drums => {
            let r = vec![40043, 40448, 40045];
            assert(r@ =~= setup_commands_of(mode));
            r
        },
    }
}

/// Register the mode → workflow bridge (`on_change` runs on every mode
/// change). No mode is entered at startup.
pub fn install<L>(listeners: &mut MidiModeListeners<L>, on_change: L)
    ensures
        final(listeners)@ == old(listeners)@.push(on_change),
{
    add_midi_mode_change_listener(listeners, on_change);
}

} // verus!
