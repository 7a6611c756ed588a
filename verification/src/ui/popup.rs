use vstd::prelude::*;

use crate::rect::Rect;
use crate::ui::text::{display_width, str_width};

verus! {

/// The size limits of a popup: at least `min_width` by `min_height`, and at
/// most the maximums where they are given.
#[derive(Clone, Copy, Debug, PartialEq, Eq, Structural)]
pub struct PopupSize {
    pub min_width: u16,
    pub min_height: u16,
    pub max_width: Option<u16>,
    pub max_height: Option<u16>,
}

impl PopupSize {
    /// A popup at least `min_width` by `min_height`, with no maximum.
    pub fn new(min_width: u16, min_height: u16) -> (s: Self)
        ensures
            s == (PopupSize { min_width, min_height, max_width: None, max_height: None }),
    {
        PopupSize { min_width, min_height, max_width: None, max_height: None }
    }

    pub fn with_max_width(self, max_width: u16) -> (s: Self)
        ensures
            s == (PopupSize { max_width: Some(max_width), ..self }),
    {
        PopupSize { max_width: Some(max_width), ..self }
    }

    pub fn with_max_height(self, max_height: u16) -> (s: Self)
        ensures
            s == (PopupSize { max_height: Some(max_height), ..self }),
    {
        PopupSize { max_height: Some(max_height), ..self }
    }
}

pub open spec fn min_int(a: int, b: int) -> int {
    if a <= b { a } else { b }
}

pub open spec fn max_int(a: int, b: int) -> int {
    if a >= b { a } else { b }
}

/// One side of a popup: the text's extent plus the two border cells, at
/// least `min`, at most `max` where given, and no more than `room`.
pub open spec fn spec_popup_side(content: int, min: u16, max: Option<u16>, room: u16) -> int {
    let wanted = max_int(content + 2, min as int);
    let capped = match max {
        Some(m) => min_int(wanted, m as int),
        None => wanted,
    };
    min_int(capped, room as int)
}

/// Where a popup of `size` holding text `text_width` cells wide and
/// `line_count` lines tall goes in `area`: centred, sized to the text and
/// its border within its limits; nowhere when `area` cannot hold the
/// popup's minimum size.
pub open spec fn spec_popup_area(area: Rect, size: PopupSize, text_width: int, line_count: int) -> Option<Rect> {
    let width = spec_popup_side(text_width, size.min_width, size.max_width, area.width);
    let height = spec_popup_side(line_count, size.min_height, size.max_height, area.height);
    if width < size.min_width || height < size.min_height {
        None
    } else {
        Some(Rect {
            x: (area.x + (area.width - width) / 2) as u16,
            y: (area.y + (area.height - height) / 2) as u16,
            width: width as u16,
            height: height as u16,
        })
    }
}

fn popup_side(content: usize, min: u16, max: Option<u16>, room: u16) -> (n: u16)
    ensures
        n == spec_popup_side(content as int, min, max, room),
{
    let wanted: u16 = if content >= u16::MAX as usize - 2 {
        u16::MAX
    } else {
        content as u16 + 2
    };
    assert(content + 2 >= u16::MAX ==> wanted == u16::MAX);
    let wanted = if wanted >= min { wanted } else { min };
    let capped = match max {
        Some(m) => if wanted <= m { wanted } else { m },
        None => wanted,
    };
    if capped <= room { capped } else { room }
}

/// The widest of the lines, in terminal cells.
pub open spec fn widest(lines: Seq<String>) -> int
    decreases lines.len(),
{
    if lines.len() == 0 {
        0
    } else {
        max_int(widest(lines.drop_last()), str_width(lines.last()@) as int)
    }
}

fn widest_line(lines: &[String]) -> (w: usize)
    ensures
        w == widest(lines@),
{
    let mut w: usize = 0;
    let mut i: usize = 0;
    while i < lines.len()
        invariant
            i <= lines.len(),
            w == widest(lines@.take(i as int)),
        decreases lines.len() - i,
    {
        assert(lines@.take(i as int) == lines@.take((i + 1) as int).drop_last());
        let line_width = display_width(lines[i].as_str());
        if line_width > w {
            w = line_width;
        }
        i = i + 1;
    }
    assert(lines@.take(lines.len() as int) == lines@);
    w
}

/// Where a popup of `size` showing `lines` goes in `area`, if it fits.
pub fn popup_area(area: Rect, size: PopupSize, lines: &[String]) -> (r: Option<Rect>)
    requires
        area.wf(),
    ensures
        r == spec_popup_area(area, size, widest(lines@), lines@.len() as int),
        r matches Some(p) ==> area.contains_rect(p),
{
    let text_width = widest_line(lines);
    let width = popup_side(text_width, size.min_width, size.max_width, area.width);
    let height = popup_side(lines.len(), size.min_height, size.max_height, area.height);
    if width < size.min_width || height < size.min_height {
        return None;
    }
    Some(Rect {
        x: area.x + (area.width - width) / 2,
        y: area.y + (area.height - height) / 2,
        width,
        height,
    })
}

} // verus!
