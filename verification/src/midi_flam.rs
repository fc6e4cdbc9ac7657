//! MIDI editor "flam": a soft grace note struck just before the main note.
//!
//! The main note is inserted at the mouse by REAPER's own command (after
//! unselecting everything, so the new note is the only selected one); the
//! grace note starts a fixed 30 ms earlier, ends where the main note
//! begins, and has half its velocity (rounded, kept within 1..=127).
//! The host runs the commands and converts times; the note found and the
//! grace velocity are decided here.
use vstd::prelude::*;

verus! {

/// MIDI editor command: unselect all events.
pub const ME_UNSELECT_ALL: i32 = 40214;

/// MIDI editor command: insert note at mouse cursor.
pub const ME_INSERT_NOTE_AT_MOUSE: i32 = 40001;

/// Why no flam was inserted.
#[derive(Debug, Clone, Copy, PartialEq, Eq, Structural)]
pub enum FlamProblem {
    NoActiveEditor,
    NoActiveTake,
}

/// Half of `v`, rounded half away from zero.
pub open spec fn half_rounded(v: int) -> int {
    if v >= 0 {
        (v + 1) / 2
    } else {
        -((-v + 1) / 2)
    }
}

/// The grace note's velocity for a main note of velocity `vel`.
pub open spec fn grace_velocity_of(vel: int) -> int {
    let h = half_rounded(vel);
    if h < 1 {
        1
    } else if h > 127 {
        127
    } else {
        h
    }
}

/// The grace note's velocity: half the main note's, rounded half away from
/// zero, within 1..=127.
pub fn grace_velocity(vel: i32) -> (r: i32)
    ensures
        r == grace_velocity_of(vel as int),
        1 <= r <= 127,
{
    let v = vel as i64;
    let h: i64 = if v >= 0 {
        (v + 1) / 2
    } else {
        -((-v + 1) / 2)
    };
    if h < 1 {
        1
    } else if h > 127 {
        127
    } else {
        h as i32
    }
}

/// The index of the note just inserted: the first note that was read and
/// is selected, given for each note whether it was read and whether it is
/// selected.
pub fn inserted_note(notes: &Vec<(bool, bool)>) -> (r: Option<usize>)
    ensures
        match r {
            Some(i) => i < notes@.len() && notes@[i as int].0 && notes@[i as int].1 && forall|j: int|
                0 <= j < i ==> !(#[trigger] notes@[j]).0 || !notes@[j].1,
            None => forall|j: int| 0 <= j < notes@.len() ==> !(#[trigger] notes@[j]).0 || !notes@[j].1,
        },
{
    let mut i: usize = 0;
    while i < notes.len()
        invariant
            i <= notes@.len(),
            forall|j: int| 0 <= j < i ==> !(#[trigger] notes@[j]).0 || !notes@[j].1,
        decreases notes.len() - i,
    {
        if notes[i].0 && notes[i].1 {
            return Some(i);
        }
        i += 1;
    }
    None
}

/// The console message for a missing editor or take.
pub fn problem_message(p: FlamProblem) -> (r: &'static str)
    ensures
        r@ == match p {
            FlamProblem::NoActiveEditor => "FTS: Flam \u{2014} no active MIDI editor\n"@,
            FlamProblem::NoActiveTake => "FTS: Flam \u{2014} no active MIDI take\n"@,
        },
{
    match p {
        FlamProblem::NoActiveEditor => "FTS: Flam \u{2014} no active MIDI editor\n",
        FlamProblem::NoActiveTake => "FTS: Flam \u{2014} no active MIDI take\n",
    }
}

} // verus!
