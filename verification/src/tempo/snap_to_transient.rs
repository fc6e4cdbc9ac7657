//! "Snap closest measure grid line to next transient": the measure line
//! closest to the mouse is moved onto the next transient after the mouse.
//!
//! The host finds the transient (by running REAPER's "next transient"
//! action from the mouse position and restoring the cursor and view
//! afterwards) and edits the tempo envelope; decided here are the anchors,
//! the point moved, and the undo point written in each outcome.
use vstd::prelude::*;
use crate::tempo::{
    is_line_point, movable, pins_after, pins_before, resolve_target, target_point, Anchoring, UndoEntry,
};

verus! {

/// How far the snap reaches back into the tempo map.
#[derive(Debug, Clone, Copy, PartialEq, Eq, Structural)]
pub enum SnapToTransientVariant {
    /// Affects all earlier tempo.
    Unconstrained,
    /// Pinned one measure before.
    Constrained,
    /// Pinned one measure before and after.
    FullyConstrained,
}

/// How a snap ended, once the undo block was opened.
#[derive(Debug, Clone, Copy, PartialEq, Eq, Structural)]
pub enum SnapOutcome {
    /// The cursor did not move: no transient after the mouse.
    NoTransient,
    /// The tempo envelope could not be read.
    TempoError,
    /// The tempo envelope is empty or locked.
    TempoLocked,
    /// The move was attempted; `moved` says whether it was committed.
    Finished { moved: bool },
}

pub open spec fn snap_anchoring_of(v: SnapToTransientVariant) -> Anchoring {
    match v {
        SnapToTransientVariant::Unconstrained => Anchoring::Free,
        SnapToTransientVariant::Constrained => Anchoring::Before,
        SnapToTransientVariant::FullyConstrained => Anchoring::BeforeAndAfter,
    }
}

/// The undo description and flags for each outcome.
pub open spec fn snap_undo_of(v: SnapToTransientVariant, outcome: SnapOutcome) -> (Seq<char>, u32) {
    match outcome {
        SnapOutcome::NoTransient => ("Snap grid to transient (no transient found)"@, 0u32),
        SnapOutcome::TempoError => ("Snap grid to transient (tempo error)"@, 0u32),
        SnapOutcome::TempoLocked => ("Snap grid to transient (tempo locked)"@, 0u32),
        SnapOutcome::Finished { moved } => (
            match v {
                SnapToTransientVariant::Unconstrained => "Snap grid to transient"@,
                SnapToTransientVariant::Constrained => "Snap grid to transient (constrained)"@,
                SnapToTransientVariant::FullyConstrained => "Snap grid to transient (fully constrained)"@,
            },
            if moved {
                1u32
            } else {
                0u32
            },
        ),
    }
}

/// Which anchors pin the neighbouring measures.
pub fn snap_anchoring(v: SnapToTransientVariant) -> (r: Anchoring)
    ensures
        r == snap_anchoring_of(v),
{
    match v {
        SnapToTransientVariant::Unconstrained => Anchoring::Free,
        SnapToTransientVariant::Constrained => Anchoring::Before,
        SnapToTransientVariant::FullyConstrained => Anchoring::BeforeAndAfter,
    }
}

/// Each constrained snap pins the measure before the line, and only the
/// fully constrained one also pins the measure after it; the unconstrained
/// snap pins nothing. So the three variants anchor differently.
pub proof fn law_snap_constraints_pin_neighbours(v: SnapToTransientVariant, w: SnapToTransientVariant)
    ensures
        pins_before(snap_anchoring_of(v)) <==> v != SnapToTransientVariant::Unconstrained,
        pins_after(snap_anchoring_of(v)) <==> v == SnapToTransientVariant::FullyConstrained,
        (snap_anchoring_of(v) == Anchoring::Free) <==> v == SnapToTransientVariant::Unconstrained,
        v != w ==> snap_anchoring_of(v) != snap_anchoring_of(w),
{
}

/// The tempo point moved onto the transient: the point on the measure line
/// (looked up before the anchors were added, and shifted by one when an
/// anchor was inserted before it), or the point created on the line; never
/// the first tempo point.
pub fn snap_point(found: Option<usize>, anchor_before: bool, created_after: Option<usize>) -> (r:
    Option<usize>)
    requires
        found matches Some(id) ==> id < usize::MAX,
        created_after matches Some(prev) ==> prev < usize::MAX,
    ensures
        match r {
            Some(id) => target_point(found, anchor_before, created_after) == Some(id as int)
                && is_line_point(found, anchor_before, created_after, id as int)
                && movable(id as int),
            None => match target_point(found, anchor_before, created_after) {
                Some(id) => !movable(id),
                None => true,
            },
        },
{
    match resolve_target(found, anchor_before, created_after) {
        Some(id) => if id != 0 {
            Some(id)
        } else {
            None
        },
        None => None,
    }
}

/// The undo point that closes a snap.
pub fn snap_undo(v: SnapToTransientVariant, outcome: SnapOutcome) -> (r: UndoEntry)
    ensures
        (r.description@, r.flags) == snap_undo_of(v, outcome),
{
    match outcome {
        SnapOutcome::NoTransient => UndoEntry {
            description: "Snap grid to transient (no transient found)",
            flags: 0,
        },
        SnapOutcome::TempoError => UndoEntry {
            description: "Snap grid to transient (tempo error)",
            flags: 0,
        },
        SnapOutcome::TempoLocked => UndoEntry {
            description: "Snap grid to transient (tempo locked)",
            flags: 0,
        },
        SnapOutcome::Finished { moved } => {
            let description = match v {
                SnapToTransientVariant::Unconstrained => "Snap grid to transient",
                SnapToTransientVariant::Constrained => "Snap grid to transient (constrained)",
                SnapToTransientVariant::FullyConstrained => "Snap grid to transient (fully constrained)",
            };
            let flags: u32 = if moved {
                1
            } else {
                0
            };
            UndoEntry { description, flags }
        },
    }
}

/// Handler of the unconstrained snap: the variant to run.
pub fn snap_grid_to_transient_handler() -> (r: SnapToTransientVariant)
    ensures
        r == SnapToTransientVariant::Unconstrained,
{
    SnapToTransientVariant::Unconstrained
}

/// Handler of the constrained snap: the variant to run.
pub fn snap_grid_to_transient_constrained_handler() -> (r: SnapToTransientVariant)
    ensures
        r == SnapToTransientVariant::Constrained,
{
    SnapToTransientVariant::Constrained
}

/// Handler of the fully constrained snap: the variant to run.
pub fn snap_grid_to_transient_fully_constrained_handler() -> (r: SnapToTransientVariant)
    ensures
        r == SnapToTransientVariant::FullyConstrained,
{
    SnapToTransientVariant::FullyConstrained
}

} // verus!
