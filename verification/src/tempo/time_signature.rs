//! Time-signature insertion.
//!
//! A `num/denom` marker is placed on the downbeat of the measure holding
//! the edit cursor (always flooring: 99% through measure 4 is still
//! measure 4). A single-measure insert (Shift held, or the `_SINGLE`
//! actions) then restores the signature that was in effect before on the
//! next downbeat, unless the project already changes signature there.
//! A marker already on the downbeat is edited in place (keeping its tempo
//! and shape); otherwise a new marker carries the tempo in effect there.
//!
//! The host reads the project (cursor measure, signatures, markers) and
//! writes the markers; what to write where is decided here.
use vstd::prelude::*;
use crate::text::{push_signed, push_str, signed_decimal};

verus! {

/// The signatures that get insert actions, in menu order.
pub open spec fn time_signature_list() -> Seq<(i32, i32)> {
    seq![
        (2i32, 4i32),
        (3i32, 4i32),
        (4i32, 4i32),
        (5i32, 4i32),
        (6i32, 4i32),
        (7i32, 4i32),
        (3i32, 8i32),
        (5i32, 8i32),
        (6i32, 8i32),
        (7i32, 8i32),
        (9i32, 8i32),
        (12i32, 8i32),
        (13i32, 8i32),
    ]
}

/// The signatures that get insert actions, in menu order.
pub fn time_signatures() -> (r: Vec<(i32, i32)>)
    ensures
        r@ == time_signature_list(),
{
    let r = vec![
        (2i32, 4i32),
        (3, 4),
        (4, 4),
        (5, 4),
        (6, 4),
        (7, 4),
        (3, 8),
        (5, 8),
        (6, 8),
        (7, 8),
        (9, 8),
        (12, 8),
        (13, 8),
    ];
    assert(r@ =~= time_signature_list());
    r
}

/// A requested insert.
#[derive(Debug, Clone, Copy, PartialEq, Eq, Structural)]
pub struct TimeSigInsert {
    pub num: i32,
    pub denom: i32,
    /// Whether the signature lasts one measure, the previous one being
    /// restored on the next downbeat.
    pub single_measure: bool,
}

/// How a marker is written on a downbeat.
#[derive(Debug, Clone, Copy, PartialEq, Eq, Structural)]
pub enum MarkerWrite {
    /// Edit the marker at this index in place.
    Edit { index: i32 },
    /// Add a new marker.
    Add,
}

/// `num/denom`.
pub open spec fn fraction_text(num: i32, denom: i32) -> Seq<char> {
    signed_decimal(num as int) + "/"@ + signed_decimal(denom as int)
}

/// The undo description of an insert.
pub open spec fn insert_undo_text(t: TimeSigInsert) -> Seq<char> {
    if t.single_measure {
        "Insert single measure of "@ + fraction_text(t.num, t.denom)
    } else {
        "Insert "@ + fraction_text(t.num, t.denom) + " time signature"@
    }
}

/// The console message after a failed write.
pub open spec fn insert_failure_text(t: TimeSigInsert) -> Seq<char> {
    "FTS: failed to insert "@ + fraction_text(t.num, t.denom) + " marker\n"@
}

/// The marker on `measure`'s downbeat, given the marker the host found at
/// the measure start (its index, negative when none) and, when it could be
/// read, its measure and whether it sits on beat zero.
pub open spec fn downbeat_marker(found: i32, marker: Option<(i32, bool)>, measure: i32) -> Option<
    i32,
> {
    if found < 0 {
        None
    } else {
        match marker {
            Some((at_measure, on_beat_zero)) => if at_measure == measure && on_beat_zero {
                Some(found)
            } else {
                None
            },
            None => None,
        }
    }
}

/// Insert `num/denom` at the cursor's measure; with Shift held, for one
/// measure only.
pub fn insert_time_signature_at_cursor(num: i32, denom: i32, shift_held: bool) -> (r: TimeSigInsert)
    ensures
        r == (TimeSigInsert { num, denom, single_measure: shift_held }),
{
    TimeSigInsert { num, denom, single_measure: shift_held }
}

/// Insert one measure of `num/denom` at the cursor's measure, whatever the
/// modifier keys (for key sequences, where Shift cannot be held throughout).
pub fn insert_single_measure_time_signature(num: i32, denom: i32) -> (r: TimeSigInsert)
    ensures
        r == (TimeSigInsert { num, denom, single_measure: true }),
{
    TimeSigInsert { num, denom, single_measure: true }
}

/// The marker found at the measure start is the one on the downbeat
/// exactly when it exists (index `>= 0`, the project's first marker, index
/// 0, included) and sits on beat zero of that measure; the lookup then
/// gives that marker's index.
pub proof fn law_downbeat_marker_found(found: i32, marker: Option<(i32, bool)>, measure: i32)
    ensures
        downbeat_marker(found, marker, measure) is Some <==> (found >= 0 && marker == Some(
            (measure, true),
        )),
        downbeat_marker(found, marker, measure) is Some ==> downbeat_marker(found, marker, measure)
            == Some(found),
        found >= 0 ==> downbeat_marker(found, Some((measure, true)), measure) == Some(found),
{
}

/// Computes [`downbeat_marker`].
pub fn marker_at_measure(found: i32, marker: Option<(i32, bool)>, measure: i32) -> (r: Option<i32>)
    ensures
        r == downbeat_marker(found, marker, measure),
{
    if found < 0 {
        return None;
    }
    match marker {
        Some((at_measure, on_beat_zero)) => if at_measure == measure && on_beat_zero {
            Some(found)
        } else {
            None
        },
        None => None,
    }
}

/// How to write a signature on a downbeat: edit the marker already there,
/// else add one.
pub fn marker_write(existing: Option<i32>) -> (r: MarkerWrite)
    ensures
        r == match existing {
            Some(index) => MarkerWrite::Edit { index },
            None => MarkerWrite::Add,
        },
{
    match existing {
        Some(index) => MarkerWrite::Edit { index },
        None => MarkerWrite::Add,
    }
}

impl TimeSigInsert {
    /// Where the previous signature `prev_num/prev_denom` is restored after
    /// the first write on `measure`: on the next measure, when that write
    /// succeeded, the insert is single-measure and the signature changed.
    pub fn restore_measure(&self, written: bool, measure: i32, prev_num: i32, prev_denom: i32) -> (r:
        Option<i32>)
        requires
            measure < i32::MAX,
        ensures
            r == (if written && self.single_measure && (prev_num != self.num || prev_denom
                != self.denom) {
                Some((measure + 1) as i32)
            } else {
                None
            }),
    {
        if written && self.single_measure && (prev_num != self.num || prev_denom != self.denom) {
            Some(measure + 1)
        } else {
            None
        }
    }

    /// Whether the restore is written, given the signature numerator of the
    /// marker already on the next downbeat (if any): a signature change
    /// there takes precedence.
    pub fn restores(next_marker_num: Option<i32>) -> (r: bool)
        ensures
            r == !(next_marker_num matches Some(n) && n > 0),
    {
        match next_marker_num {
            Some(n) => n <= 0,
            None => true,
        }
    }

    /// The undo description.
    pub fn undo_description(&self) -> (r: String)
        ensures
            r@ == insert_undo_text(*self),
    {
        let mut s = String::new();
        if self.single_measure {
            push_str(&mut s, "Insert single measure of ");
            push_signed(&mut s, self.num as i64);
            push_str(&mut s, "/");
            push_signed(&mut s, self.denom as i64);
        } else {
            push_str(&mut s, "Insert ");
            push_signed(&mut s, self.num as i64);
            push_str(&mut s, "/");
            push_signed(&mut s, self.denom as i64);
            push_str(&mut s, " time signature");
        }
        assert(s@ =~= insert_undo_text(*self));
        s
    }

    /// The console message when a write failed.
    pub fn failure_message(&self) -> (r: String)
        ensures
            r@ == insert_failure_text(*self),
    {
        let mut s = String::new();
        push_str(&mut s, "FTS: failed to insert ");
        push_signed(&mut s, self.num as i64);
        push_str(&mut s, "/");
        push_signed(&mut s, self.denom as i64);
        push_str(&mut s, " marker\n");
        assert(s@ =~= insert_failure_text(*self));
        s
    }
}

} // verus!
