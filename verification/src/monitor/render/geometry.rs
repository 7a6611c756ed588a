use vstd::prelude::*;

use crate::monitor::layout::{gap_if_room, spec_gap_if_room};
use crate::rect::Rect;

verus! {

pub open spec fn spec_fit_centered_aspect_rect(area: Rect, aspect_ratio: u16) -> Option<Rect> {
    if area.width < 2 || area.height < 2 {
        None
    } else {
        let ratio: int = if aspect_ratio < 1 { 1 } else { aspect_ratio as int };
        let by_width: int = area.width as int / ratio;
        let height: int = if (area.height as int) < by_width { area.height as int } else { by_width };
        let width: int = height * ratio;
        if width < 2 || height < 2 {
            None
        } else {
            Some(
                Rect {
                    x: (area.x + (area.width - width) / 2) as u16,
                    y: (area.y + (area.height - height) / 2) as u16,
                    width: width as u16,
                    height: height as u16,
                },
            )
        }
    }
}

/// The largest rectangle inside `area` that is `aspect_ratio` (at least 1)
/// times as wide as high, centered; `None` when it would be under two cells
/// in either direction.
pub fn fit_centered_aspect_rect(area: Rect, aspect_ratio: u16) -> (r: Option<Rect>)
    requires
        area.wf(),
    ensures
        r == spec_fit_centered_aspect_rect(area, aspect_ratio),
        r matches Some(fit) ==> area.contains_rect(fit) && fit.wf(),
{
    if area.width < 2 || area.height < 2 {
        return None;
    }
    let ratio: u16 = if aspect_ratio < 1 { 1 } else { aspect_ratio };
    let by_width: u16 = area.width / ratio;
    let height: u16 = if area.height < by_width { area.height } else { by_width };
    assert(height as int * ratio as int <= area.width as int) by (nonlinear_arith)
        requires
            height <= by_width,
            by_width == area.width as int / ratio as int,
            ratio >= 1,
    ;
    let width: u16 = height * ratio;
    if width < 2 || height < 2 {
        return None;
    }
    let x = area.x + (area.width - width) / 2;
    let y = area.y + (area.height - height) / 2;
    Some(Rect::new(x, y, width, height))
}

pub open spec fn spec_centered_pair(area: Rect, preferred_gap: u16) -> (Rect, Rect) {
    let gap: int = spec_gap_if_room(area.width, preferred_gap) as int;
    let each: int = if area.width >= gap { (area.width - gap) / 2 } else { 0 };
    let total: int = each * 2 + gap;
    let start: int = area.x + (area.width - total) / 2;
    (
        Rect { x: start as u16, y: area.y, width: each as u16, height: area.height },
        Rect { x: (start + each + gap) as u16, y: area.y, width: each as u16, height: area.height },
    )
}

/// Two equal rectangles side by side, centered in `area`, with the gap
/// between them where the width leaves room for it.
pub fn centered_pair(area: Rect, preferred_gap: u16) -> (p: (Rect, Rect))
    requires
        area.wf(),
    ensures
        p == spec_centered_pair(area, preferred_gap),
        area.contains_rect(p.0),
        area.contains_rect(p.1),
        p.0.width == p.1.width,
        p.0.x + p.0.width <= p.1.x,
{
    let gap = gap_if_room(area.width, preferred_gap);
    let each: u16 = if area.width >= gap { (area.width - gap) / 2 } else { 0 };
    let total: u16 = each * 2 + gap;
    let start_x = area.x + (area.width - total) / 2;
    let left = Rect::new(start_x, area.y, each, area.height);
    let right = Rect::new(start_x + each + gap, area.y, each, area.height);
    (left, right)
}

pub open spec fn spec_inset_rect(rect: Rect, padding: u16) -> Rect {
    if rect.width <= padding * 2 || rect.height <= padding * 2 {
        rect
    } else {
        Rect {
            x: (rect.x + padding) as u16,
            y: (rect.y + padding) as u16,
            width: (rect.width - padding * 2) as u16,
            height: (rect.height - padding * 2) as u16,
        }
    }
}

/// `rect` shrunk by `padding` on every side, or unchanged where that would
/// leave nothing.
pub fn inset_rect(rect: Rect, padding: u16) -> (r: Rect)
    requires
        rect.wf(),
        padding * 2 <= u16::MAX,
    ensures
        r == spec_inset_rect(rect, padding),
        rect.contains_rect(r),
{
    let twice = padding * 2;
    if rect.width <= twice || rect.height <= twice {
        return rect;
    }
    Rect::new(rect.x + padding, rect.y + padding, rect.width - twice, rect.height - twice)
}

pub open spec fn spec_ordered_range(range: (i32, i32)) -> (i32, i32) {
    if range.0 > range.1 {
        (range.1, range.0)
    } else {
        range
    }
}

/// The bounds of a range in increasing order.
pub fn ordered_range(range: (i32, i32)) -> (r: (i32, i32))
    ensures
        r == spec_ordered_range(range),
        r.0 <= r.1,
{
    let (min, max) = range;
    if min > max {
        (max, min)
    } else {
        (min, max)
    }
}

pub open spec fn spec_canvas_range(range: (i32, i32)) -> (i32, i32) {
    let (min, max) = spec_ordered_range(range);
    if min == max {
        (min, if min < i32::MAX { (min + 1) as i32 } else { min })
    } else {
        (min, max)
    }
}

/// The bounds of a drawing canvas for a coordinate range: ordered, and one
/// wide where the range is a single value.
pub fn canvas_range(range: (i32, i32)) -> (r: (i32, i32))
    ensures
        r == spec_canvas_range(range),
        r.0 <= r.1,
{
    let (min, max) = ordered_range(range);
    if min == max {
        let top = if min < i32::MAX { min + 1 } else { min };
        (min, top)
    } else {
        (min, max)
    }
}

pub open spec fn spec_clamp_i32(value: i32, min: i32, max: i32) -> i32 {
    if value < min {
        min
    } else if value > max {
        max
    } else {
        value
    }
}

/// `value` pulled into `[min, max]`.
pub fn clamp_i32(value: i32, min: i32, max: i32) -> (r: i32)
    ensures
        r == spec_clamp_i32(value, min, max),
        min <= max ==> min <= r <= max,
{
    if value < min {
        min
    } else if value > max {
        max
    } else {
        value
    }
}

pub open spec fn spec_invert_in_range(value: i32, min: i32, max: i32) -> int {
    max - (spec_clamp_i32(value, min, max) - min)
}

/// `value`, clamped to `[min, max]`, mirrored within the range: `min`
/// becomes `max` and the other way round.
pub fn invert_in_range(value: i32, min: i32, max: i32) -> (r: i32)
    requires
        i32::MIN <= max - min <= i32::MAX,
    ensures
        r == spec_invert_in_range(value, min, max),
        min <= max ==> min <= r <= max,
{
    let clamped = clamp_i32(value, min, max);
    max - (clamped - min)
}

} // verus!
