//! Splitting selected items at the edit cursor with a crossfade on the left
//! (after SWS `SWS_AWSPLITXFADELEFT`): each item under the cursor is split
//! a fade length before the cursor, the left part is extended over the
//! right by the fade length, and the two get a fade-out and a fade-in.
//!
//! The host does the splitting and fading (positions and lengths are
//! floating-point); decided here is the grouping of the new right-hand
//! parts: the right parts of a grouped item go into a fresh group, one new
//! group per run of consecutive items from the same original group.
use vstd::prelude::*;

verus! {

/// Undo-state flag for item edits.
pub const UNDO_STATE_ITEMS: i32 = 4;

/// The largest of the group ids, and 0 when none is positive.
pub open spec fn max_group(ids: Seq<i32>) -> int
    decreases ids.len(),
{
    if ids.len() == 0 {
        0
    } else {
        let m = max_group(ids.drop_last());
        if ids.last() > m {
            ids.last() as int
        } else {
            m
        }
    }
}

/// The number of item groups in the project: the largest group id of its
/// items (group ids are 1-based; 0 means ungrouped).
pub fn count_item_groups(group_ids: &Vec<i32>) -> (r: i32)
    ensures
        r as int == max_group(group_ids@),
        r >= 0,
{
    let mut max: i32 = 0;
    let mut i: usize = 0;
    while i < group_ids.len()
        invariant
            i <= group_ids@.len(),
            max as int == max_group(group_ids@.subrange(0, i as int)),
            max >= 0,
        decreases group_ids.len() - i,
    {
        assert(group_ids@.subrange(0, i + 1).drop_last() =~= group_ids@.subrange(0, i as int));
        if group_ids[i] > max {
            max = group_ids[i];
        }
        i += 1;
    }
    assert(group_ids@.subrange(0, group_ids@.len() as int) =~= group_ids@);
    max
}

/// The grouping state across one split run: the original group of the
/// last grouped item split, and how many new groups were opened.
pub struct SplitGrouping {
    pub last_group: i32,
    pub groups_added: i32,
}

impl SplitGrouping {
    /// Nothing split yet.
    pub fn new() -> (r: SplitGrouping)
        ensures
            r.last_group == -1,
            r.groups_added == 0,
    {
        SplitGrouping { last_group: -1, groups_added: 0 }
    }

    /// The group of the right-hand part of a split item whose original
    /// group is `item_group`, when there are `num_groups` groups in the
    /// project: none for an ungrouped item; otherwise a new group after the
    /// existing ones, opened whenever the original group differs from the
    /// last one seen.
    pub fn right_part_group(&mut self, num_groups: i32, item_group: i32) -> (r: Option<i32>)
        requires
            0 <= num_groups,
            0 <= old(self).groups_added,
            num_groups + old(self).groups_added + 1 <= i32::MAX,
        ensures
            item_group <= 0 ==> r is None && *final(self) == *old(self),
            item_group > 0 ==> {
                let opened = item_group != old(self).last_group;
                &&& final(self).last_group == item_group
                &&& final(self).groups_added == old(self).groups_added + if opened {
                    1int
                } else {
                    0int
                }
                &&& r == Some((num_groups + final(self).groups_added) as i32)
            },
    {
        if item_group > 0 {
            if item_group != self.last_group {
                self.last_group = item_group;
                self.groups_added = self.groups_added + 1;
            }
            Some(num_groups + self.groups_added)
        } else {
            None
        }
    }
}

} // verus!
