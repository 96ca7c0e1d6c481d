//! Pane order for focus cycling, and hit testing of terminal cells.

use vstd::prelude::*;

use crate::app::model::state::sat_add;
use crate::app::model::types::{FocusPane, Rect};

verus! {

/// The pane after `p`, left to right, wrapping around.
pub open spec fn focus_after(p: FocusPane) -> FocusPane {
    match p {
        FocusPane::Methods => FocusPane::Request,
        FocusPane::Request => FocusPane::Response,
        FocusPane::Response => FocusPane::Methods,
    }
}

/// The pane before `p`, right to left, wrapping around.
pub open spec fn focus_before(p: FocusPane) -> FocusPane {
    match p {
        FocusPane::Methods => FocusPane::Response,
        FocusPane::Request => FocusPane::Methods,
        FocusPane::Response => FocusPane::Request,
    }
}

/// Whether a cell lies inside a rectangle whose far edges are clamped to the
/// largest coordinate.
pub open spec fn point_in(rect: Rect, column: u16, row: u16) -> bool {
    &&& rect.x <= column
    &&& column < sat_add(rect.x as int, rect.width as int, u16::MAX as int)
    &&& rect.y <= row
    &&& row < sat_add(rect.y as int, rect.height as int, u16::MAX as int)
}

/// Keeps tab navigation aligned with left to right pane order.
pub fn next_focus(current: FocusPane) -> (r: FocusPane)
    ensures
        r == focus_after(current),
{
    match current {
        FocusPane::Methods => FocusPane::Request,
        FocusPane::Request => FocusPane::Response,
        FocusPane::Response => FocusPane::Methods,
    }
}

/// Keeps reverse tab navigation aligned with right to left pane order.
pub fn prev_focus(current: FocusPane) -> (r: FocusPane)
    ensures
        r == focus_before(current),
{
    match current {
        FocusPane::Methods => FocusPane::Response,
        FocusPane::Request => FocusPane::Methods,
        FocusPane::Response => FocusPane::Request,
    }
}

/// Uses saturating bounds so extreme sizes never overflow coordinate math.
pub fn contains_point(rect: Rect, column: u16, row: u16) -> (b: bool)
    ensures
        b == point_in(rect, column, row),
{
    column >= rect.x && column < rect.x.saturating_add(rect.width) && row >= rect.y && row
        < rect.y.saturating_add(rect.height)
}

/// Tab and back tab undo each other, and three steps either way come back.
pub proof fn lemma_focus_cycle(p: FocusPane)
    ensures
        focus_before(focus_after(p)) == p,
        focus_after(focus_before(p)) == p,
        focus_after(focus_after(focus_after(p))) == p,
        focus_before(focus_before(focus_before(p))) == p,
        focus_after(p) != p,
{
}

} // verus!
