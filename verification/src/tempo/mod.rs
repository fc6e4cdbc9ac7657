//! Tempo-map actions: moving a grid line or tempo marker to the mouse,
//! snapping a measure line to the next transient, and inserting time
//! signatures.
//!
//! The positions, tempos and the tempo envelope itself are floating-point
//! data the host keeps; what is decided here is which tempo point is moved,
//! which anchor points pin the neighbouring measures, when an action stops,
//! and what goes on the undo stack.
use vstd::prelude::*;

pub mod move_grid;
pub mod snap_to_transient;
pub mod time_signature;

verus! {

/// How many neighbouring measures are pinned by anchor points before the
/// target line is moved.
#[derive(Debug, Clone, Copy, PartialEq, Eq, Structural)]
pub enum Anchoring {
    /// No anchor: the move stretches every earlier measure.
    Free,
    /// An anchor one measure before the line.
    Before,
    /// Anchors one measure before and one after the line.
    BeforeAndAfter,
}

/// Whether an anchoring pins the measure before the line.
pub open spec fn pins_before(a: Anchoring) -> bool {
    a == Anchoring::Before || a == Anchoring::BeforeAndAfter
}

/// Whether an anchoring pins the measure after the line.
pub open spec fn pins_after(a: Anchoring) -> bool {
    a == Anchoring::BeforeAndAfter
}

/// An undo point: its description and the undo-state flags
/// (`1` = track configuration, which covers the master tempo map; `0` =
/// nothing changed).
pub struct UndoEntry {
    pub description: &'static str,
    pub flags: u32,
}

/// The tempo point that is moved, given the point found on the grid line
/// (looked up before any anchor was added), whether an anchor was inserted
/// before it, and the point created on the line when none was found (the
/// index of the point preceding the line, when creation succeeded).
///
/// A point found on the line shifts up by one when an anchor was inserted
/// before it; a point created after `prev` sits at `prev + 1`.
pub open spec fn target_point(
    found: Option<usize>,
    anchor_before: bool,
    created_after: Option<usize>,
) -> Option<int> {
    match found {
        Some(id) => Some(id + if anchor_before { 1int } else { 0int }),
        None => match created_after {
            Some(prev) => Some(prev + 1),
            None => None,
        },
    }
}

/// The tempo map, as the sequence of its points, after the anchor one
/// measure before the line: when one was inserted, it went in at `at`.
pub open spec fn with_anchor_before(points: Seq<int>, anchor_before: bool, at: int, anchor: int) -> Seq<int> {
    if anchor_before {
        points.insert(at, anchor)
    } else {
        points
    }
}

/// Point `id` is the point on the grid line. When a point `k` was found on
/// the line in the map before the anchors, `id` is that same point in the
/// map after them, for every map and every anchor inserted before it (an
/// anchor earlier in time goes in at an index no greater than `k`). When a
/// point was created on the line after point `prev` of the map (as it
/// stands after the anchors), `id` is the created point.
pub open spec fn is_line_point(
    found: Option<usize>,
    anchor_before: bool,
    created_after: Option<usize>,
    id: int,
) -> bool {
    match found {
        Some(k) => forall|points: Seq<int>, at: int, anchor: int|
            0 <= at <= k < points.len() ==> #[trigger] with_anchor_before(
                points,
                anchor_before,
                at,
                anchor,
            )[id] == points[k as int],
        None => match created_after {
            Some(prev) => forall|points: Seq<int>, p: int|
                0 <= prev < points.len() ==> #[trigger] points.insert(prev + 1, p)[id] == p,
            None => false,
        },
    }
}

/// Computes [`target_point`].
pub fn resolve_target(
    found: Option<usize>,
    anchor_before: bool,
    created_after: Option<usize>,
) -> (r: Option<usize>)
    requires
        found matches Some(id) ==> id < usize::MAX,
        created_after matches Some(prev) ==> prev < usize::MAX,
    ensures
        match r {
            Some(id) => target_point(found, anchor_before, created_after) == Some(id as int)
                && is_line_point(found, anchor_before, created_after, id as int),
            None => target_point(found, anchor_before, created_after) is None,
        },
{
    proof {
        if let Some(k) = found {
            let id: int = k + if anchor_before { 1int } else { 0int };
            assert forall|points: Seq<int>, at: int, anchor: int|
                0 <= at <= k < points.len() implies #[trigger] with_anchor_before(
                points,
                anchor_before,
                at,
                anchor,
            )[id] == points[k as int] by {
                if anchor_before {
                    points.insert_ensures(at, anchor);
                }
            }
        } else if let Some(prev) = created_after {
            assert forall|points: Seq<int>, p: int| 0 <= prev < points.len() implies #[trigger] points.insert(
                prev + 1,
                p,
            )[prev + 1] == p by {
                points.insert_ensures(prev + 1, p);
            }
        }
    }
    match found {
        Some(id) => if anchor_before {
            Some(id + 1)
        } else {
            Some(id)
        },
        None => match created_after {
            Some(prev) => Some(prev + 1),
            None => None,
        },
    }
}

/// The first tempo point (index 0) anchors the whole map and is never moved.
pub open spec fn movable(id: int) -> bool {
    id != 0
}

} // verus!
