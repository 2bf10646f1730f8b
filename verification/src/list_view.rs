//! Scrolling of long lists: which row is at the top so that the selected
//! row stays in view, centred where possible.
use vstd::prelude::*;

verus! {

pub open spec fn sat_sub(a: nat, b: nat) -> nat {
    if a >= b {
        (a - b) as nat
    } else {
        0
    }
}

/// First visible row: none scrolled when everything fits or the selection
/// is in the first half screen; the last screenful near the end; otherwise
/// the selection centred.
pub open spec fn scroll_offset_spec(item_count: nat, visible_rows: nat, selected: nat) -> nat {
    if visible_rows >= item_count {
        0
    } else if selected < visible_rows / 2 {
        0
    } else if selected > sat_sub(item_count, visible_rows / 2) {
        sat_sub(item_count, visible_rows)
    } else {
        sat_sub(selected, visible_rows / 2)
    }
}

/// The first visible row of a list of `item_count` rows shown in
/// `visible_rows` rows, with `selected` selected.
pub fn scroll_offset(item_count: usize, visible_rows: usize, selected: usize) -> (r: usize)
    ensures
        r == scroll_offset_spec(item_count as nat, visible_rows as nat, selected as nat),
{
    if visible_rows >= item_count {
        0
    } else if selected < visible_rows / 2 {
        0
    } else if selected > item_count.saturating_sub(visible_rows / 2) {
        item_count.saturating_sub(visible_rows)
    } else {
        selected.saturating_sub(visible_rows / 2)
    }
}

/// The selected row is always in view, and the view runs past the end of
/// the list by at most one row (an odd number of visible rows, centred on
/// a row near the end), never with an even number.
pub proof fn law_selection_stays_visible(item_count: nat, visible_rows: nat, selected: nat)
    requires
        selected < item_count,
        visible_rows >= 1,
    ensures
        scroll_offset_spec(item_count, visible_rows, selected) <= selected,
        selected < scroll_offset_spec(item_count, visible_rows, selected) + visible_rows,
        visible_rows < item_count ==> scroll_offset_spec(item_count, visible_rows, selected)
            + visible_rows <= item_count + visible_rows % 2,
{
}

} // verus!
