//! Smart duplicate: the selected items are duplicated forward by the
//! measure span of the selection rather than by a time offset, so copies
//! land on the same beat of a later measure across tempo and time-signature
//! changes. When a copy would still overlap the selection, the shift grows
//! by one measure. The selection then moves onto the copies, so repeating
//! the action walks an item forward one span at a time.
//!
//! The host converts between time and beats and clones the items; the
//! measure arithmetic is decided here.
use vstd::prelude::*;

verus! {

/// The undo label.
pub const UNDO_LABEL: &'static str = "Smart duplicate items";

/// A selected item's start and end measure indices.
#[derive(Debug, Clone, Copy, PartialEq, Eq, Structural)]
pub struct MeasureSpan {
    pub measure: i32,
    pub end_measure: i32,
}

/// The smallest start measure (at most `i32::MAX`).
pub open spec fn min_start(c: Seq<MeasureSpan>) -> int
    decreases c.len(),
{
    if c.len() == 0 {
        i32::MAX as int
    } else {
        let m = min_start(c.drop_last());
        if (c.last().measure as int) < m {
            c.last().measure as int
        } else {
            m
        }
    }
}

/// The largest end measure (at least 0).
pub open spec fn max_end(c: Seq<MeasureSpan>) -> int
    decreases c.len(),
{
    if c.len() == 0 {
        0
    } else {
        let m = max_end(c.drop_last());
        if (c.last().end_measure as int) > m {
            c.last().end_measure as int
        } else {
            m
        }
    }
}

/// The measure span of a selection: its last end measure minus its first
/// start measure, at least one measure.
pub open spec fn span_of(c: Seq<MeasureSpan>) -> int {
    let d = max_end(c) - min_start(c);
    if d < 1 {
        1
    } else {
        d
    }
}

/// Computes [`span_of`].
pub fn measure_span(coords: &Vec<MeasureSpan>) -> (r: i32)
    requires
        i32::MIN <= max_end(coords@) - min_start(coords@) <= i32::MAX,
    ensures
        r == span_of(coords@),
{
    let mut meas_min: i32 = i32::MAX;
    let mut meas_max: i32 = 0;
    let mut i: usize = 0;
    while i < coords.len()
        invariant
            i <= coords@.len(),
            meas_min == min_start(coords@.subrange(0, i as int)),
            meas_max == max_end(coords@.subrange(0, i as int)),
        decreases coords.len() - i,
    {
        assert(coords@.subrange(0, i + 1).drop_last() =~= coords@.subrange(0, i as int));
        if coords[i].measure < meas_min {
            meas_min = coords[i].measure;
        }
        if coords[i].end_measure > meas_max {
            meas_max = coords[i].end_measure;
        }
        i += 1;
    }
    assert(coords@.subrange(0, coords@.len() as int) =~= coords@);
    let d = meas_max as i64 - meas_min as i64;
    if d < 1 {
        1
    } else {
        d as i32
    }
}

/// The duplication: the measure shift, and the measure each copy starts
/// in (same beat within it as its original).
pub struct DuplicatePlan {
    pub shift: i32,
    pub target_measures: Vec<i32>,
}

/// Plan the duplication of a selection, given whether a copy shifted by the
/// selection's span would start before the selection ends.
pub fn smart_duplicate(coords: &Vec<MeasureSpan>, overlaps: bool) -> (r: DuplicatePlan)
    requires
        i32::MIN <= max_end(coords@) - min_start(coords@) <= i32::MAX,
        forall|i: int|
            0 <= i < coords@.len() ==> i32::MIN <= #[trigger] coords@[i].measure + span_of(coords@)
                + 1 <= i32::MAX,
        span_of(coords@) + 1 <= i32::MAX,
    ensures
        r.shift == span_of(coords@) + if overlaps {
            1int
        } else {
            0int
        },
        r.target_measures@.len() == coords@.len(),
        forall|i: int|
            0 <= i < coords@.len() ==> #[trigger] r.target_measures@[i] == coords@[i].measure
                + r.shift,
{
    let span = measure_span(coords);
    let shift = if overlaps {
        span + 1
    } else {
        span
    };
    let mut targets: Vec<i32> = Vec::new();
    let mut i: usize = 0;
    while i < coords.len()
        invariant
            i <= coords@.len(),
            shift == span_of(coords@) + if overlaps {
                1int
            } else {
                0int
            },
            forall|k: int|
                0 <= k < coords@.len() ==> i32::MIN <= #[trigger] coords@[k].measure + span_of(
                    coords@,
                ) + 1 <= i32::MAX,
            targets@.len() == i,
            forall|k: int| 0 <= k < i ==> #[trigger] targets@[k] == coords@[k].measure + shift,
        decreases coords.len() - i,
    {
        assert(i32::MIN <= coords@[i as int].measure + span_of(coords@) + 1 <= i32::MAX);
        targets.push(coords[i].measure + shift);
        i += 1;
    }
    DuplicatePlan { shift, target_measures: targets }
}

/// A copy lands a whole number of measures later, at least one.
pub proof fn law_copies_move_forward(coords: Seq<MeasureSpan>, overlaps: bool)
    ensures
        span_of(coords) + (if overlaps { 1int } else { 0int }) >= 1,
{
}

/// The smallest start measure is no greater than any item's start and, for
/// a non-empty selection, is some item's start.
proof fn lemma_min_start(c: Seq<MeasureSpan>)
    ensures
        min_start(c) <= i32::MAX,
        forall|i: int| 0 <= i < c.len() ==> min_start(c) <= #[trigger] c[i].measure,
        c.len() > 0 ==> exists|i: int| 0 <= i < c.len() && min_start(c) == #[trigger] c[i].measure,
    decreases c.len(),
{
    if c.len() > 0 {
        let d = c.drop_last();
        lemma_min_start(d);
        assert forall|i: int| 0 <= i < c.len() implies min_start(c) <= #[trigger] c[i].measure by {
            if i < c.len() - 1 {
                assert(c[i] == d[i]);
            }
        }
        if (c.last().measure as int) < min_start(d) || d.len() == 0 {
            assert(min_start(c) == c[c.len() - 1].measure);
        } else {
            let j = choose|j: int| 0 <= j < d.len() && min_start(d) == #[trigger] d[j].measure;
            assert(c[j] == d[j]);
        }
    }
}

/// The largest end measure is at least every item's end (and at least 0)
/// and, unless it is 0, is some item's end.
proof fn lemma_max_end(c: Seq<MeasureSpan>)
    ensures
        max_end(c) >= 0,
        forall|i: int| 0 <= i < c.len() ==> max_end(c) >= #[trigger] c[i].end_measure,
        max_end(c) == 0 || exists|i: int| 0 <= i < c.len() && max_end(c) == #[trigger] c[i].end_measure,
    decreases c.len(),
{
    if c.len() > 0 {
        let d = c.drop_last();
        lemma_max_end(d);
        assert forall|i: int| 0 <= i < c.len() implies max_end(c) >= #[trigger] c[i].end_measure by {
            if i < c.len() - 1 {
                assert(c[i] == d[i]);
            }
        }
        if (c.last().end_measure as int) > max_end(d) {
            assert(max_end(c) == c[c.len() - 1].end_measure);
        } else if max_end(d) != 0 {
            let j = choose|j: int| 0 <= j < d.len() && max_end(d) == #[trigger] d[j].end_measure;
            assert(c[j] == d[j]);
        }
    }
}

/// The measure span of a selection covers it: it is at least one measure
/// and at least the distance from any item's start measure to any item's
/// end measure. When the selection is not empty and its end measures are
/// measures of the project (`>= 0`), the span is exactly the distance from
/// the smallest start to the largest end, or one measure when that is
/// less: it is one measure or the distance between some item's start and
/// some item's end. So the span does not depend on the order in which the
/// items are listed.
pub proof fn law_span_covers_selection(c: Seq<MeasureSpan>)
    ensures
        span_of(c) >= 1,
        forall|i: int, j: int|
            0 <= i < c.len() && 0 <= j < c.len() ==> span_of(c) >= #[trigger] c[j].end_measure
                - #[trigger] c[i].measure,
        c.len() > 0 && (forall|i: int| 0 <= i < c.len() ==> #[trigger] c[i].end_measure >= 0)
            ==> span_of(c) == 1 || exists|i: int, j: int|
            0 <= i < c.len() && 0 <= j < c.len() && span_of(c) == #[trigger] c[j].end_measure
                - #[trigger] c[i].measure,
{
    lemma_min_start(c);
    lemma_max_end(c);
    if c.len() > 0 && (forall|i: int| 0 <= i < c.len() ==> #[trigger] c[i].end_measure >= 0) {
        let i = choose|i: int| 0 <= i < c.len() && min_start(c) == #[trigger] c[i].measure;
        assert(c[0].end_measure >= 0);
        if max_end(c) == 0 {
            assert(max_end(c) == c[0].end_measure);
            if span_of(c) != 1 {
                assert(span_of(c) == c[0].end_measure - c[i].measure);
            }
        } else {
            let j = choose|j: int| 0 <= j < c.len() && max_end(c) == #[trigger] c[j].end_measure;
            if span_of(c) != 1 {
                assert(span_of(c) == c[j].end_measure - c[i].measure);
            }
        }
    }
}

/// Whether an item lies within one measure: it starts in measure `m` (a
/// measure of the project, so `m >= 0`) and ends in it or on the downbeat
/// of the next.
pub open spec fn within_one_measure(item: MeasureSpan) -> bool {
    &&& 0 <= item.measure
    &&& item.end_measure == item.measure || item.end_measure == item.measure + 1
}

/// A single selected item that lies within one measure, whose copy does
/// not start before it ends, is duplicated exactly one measure forward;
/// the copy, which becomes the selection, again lies within one measure,
/// so repeating the action walks the item forward one measure at a time
/// (1, 2, 3, 4), never doubling.
pub proof fn law_single_item_walks_one_measure(item: MeasureSpan)
    requires
        within_one_measure(item),
        item.measure + 2 <= i32::MAX,
    ensures
        span_of(seq![item]) == 1,
        within_one_measure(
            MeasureSpan { measure: (item.measure + 1) as i32, end_measure: (item.end_measure + 1) as i32 },
        ),
{
    let c = seq![item];
    let e = Seq::<MeasureSpan>::empty();
    assert(c.drop_last() =~= e);
    assert(c.last() == item);
    assert(min_start(e) == i32::MAX as int);
    assert(max_end(e) == 0);
    assert(min_start(c) == item.measure as int);
    assert(max_end(c) == item.end_measure as int);
}

} // verus!
