use vstd::prelude::*;

use ratatui::widgets::Block;

use crate::rect::Rect;

verus! {

/// `a + b`, stopping at the largest `u16`.
pub open spec fn sat_add(a: u16, b: u16) -> u16 {
    if a + b > u16::MAX { u16::MAX } else { (a + b) as u16 }
}

/// `a - b`, stopping at zero.
pub open spec fn sat_sub(a: u16, b: u16) -> u16 {
    if a >= b { (a - b) as u16 } else { 0 }
}

/// The cells inside a one-cell border on every side of `area`: one column
/// and one row in from the top-left corner (never past the far edge), and
/// two cells narrower and shorter, down to nothing.
pub open spec fn spec_bordered_inner(area: Rect) -> Rect {
    let right = sat_add(area.x, area.width);
    let bottom = sat_add(area.y, area.height);
    let x1 = sat_add(area.x, 1);
    let y1 = sat_add(area.y, 1);
    Rect {
        x: if x1 <= right { x1 } else { right },
        y: if y1 <= bottom { y1 } else { bottom },
        width: sat_sub(area.width, 2),
        height: sat_sub(area.height, 2),
    }
}

/// Calls ratatui's `Block::bordered().inner`. Its source, for a block with
/// all four borders, no title and no padding, moves the left and top edges
/// in by one (saturating, and clamped to the far edge) and takes one cell
/// off each side of the width and the height (saturating): what
/// `spec_bordered_inner` states.
#[verifier::external_body]
pub(crate) fn bordered_box_inner(area: Rect) -> (r: Rect)
    ensures
        r == spec_bordered_inner(area),
{
    let outer = ratatui::layout::Rect { x: area.x, y: area.y, width: area.width, height: area.height };
    let inner = Block::bordered().inner(outer);
    Rect { x: inner.x, y: inner.y, width: inner.width, height: inner.height }
}

} // verus!
