use vstd::prelude::*;

use ratatui::layout::{Constraint, Layout};

use crate::rect::Rect;

verus! {

/// How ratatui's vertical layout of a header of `header_rows` rows above a
/// body of at least nothing splits `area`.
pub uninterp spec fn header_and_body(area: Rect, header_rows: u16) -> (Rect, Rect);

/// Calls ratatui's `Layout::vertical([Length(header_rows), Min(0)]).areas`,
/// whose result depends on the area and the header's rows alone; named
/// `header_and_body`.
#[verifier::external_body]
fn split_header_body(area: Rect, header_rows: u16) -> (r: (Rect, Rect))
    ensures
        r == header_and_body(area, header_rows),
{
    let outer = ratatui::layout::Rect::new(area.x, area.y, area.width, area.height);
    let [h, b] = Layout::vertical([Constraint::Length(header_rows), Constraint::Min(0)]).areas(outer);
    (Rect { x: h.x, y: h.y, width: h.width, height: h.height }, Rect { x: b.x, y: b.y, width: b.width, height: b.height })
}

/// Rows of the header line that shows the device name.
pub const HEADER_ROWS: u16 = 1;

/// The monitor screen: a header row for the device name, and the body.
pub fn main_layout(area: Rect) -> (r: [Rect; 2])
    ensures
        r[0] == header_and_body(area, HEADER_ROWS).0,
        r[1] == header_and_body(area, HEADER_ROWS).1,
{
    let (header, body) = split_header_body(area, HEADER_ROWS);
    [header, body]
}

/// The title of the joystick panel: plural for more than one stick.
pub fn joystick_title(count: usize) -> (s: &'static str)
    ensures
        s@ == (if count > 1 { " Joysticks "@ } else { " Joystick "@ }),
{
    if count > 1 {
        " Joysticks "
    } else {
        " Joystick "
    }
}

} // verus!
