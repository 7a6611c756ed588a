use vstd::prelude::*;

use crate::monitor::config::{
    bar_heights, AXIS_GAP, AXIS_LABEL_MAX, AXIS_LEFT_PADDING, AXIS_MIN_WIDTH, BAR_HEIGHT_MEDIUM,
    BAR_HEIGHT_TALL, BAR_HEIGHT_THIN, LABEL_GAUGE_GAP,
};
use crate::monitor::ui::{spec_visible_window, visible_window};
use crate::rect::Rect;

use ratatui::layout::{Constraint, Layout};

verus! {

/// The bar height for `num_items` gauges in `available_height` rows: the
/// tallest of the bar heights whose bars, each with the gap below it, all
/// fit, else the thinnest. The count is taken modulo 2^16, as the row
/// arithmetic is.
pub open spec fn spec_bar_height_for(available_height: u16, num_items: usize) -> u16 {
    let k: int = (num_items as u16) as int;
    if num_items == 0 {
        BAR_HEIGHT_THIN
    } else if (bar_heights()[0] + AXIS_GAP) * k <= available_height {
        bar_heights()[0]
    } else if (bar_heights()[1] + AXIS_GAP) * k <= available_height {
        bar_heights()[1]
    } else {
        bar_heights()[2]
    }
}

/// Whether the rows of the tallest bars for `num_items` gauges are
/// representable, as the row arithmetic needs.
pub open spec fn bar_rows_fit(num_items: usize) -> bool {
    num_items == 0 || (bar_heights()[0] + AXIS_GAP) * ((num_items as u16) as int) <= u16::MAX
}

/// Whether `bar_height_for` and `capacity_for` can take `num_items` gauges.
pub fn bar_rows_fit_count(num_items: usize) -> (b: bool)
    ensures
        b == bar_rows_fit(num_items),
{
    if num_items == 0 {
        return true;
    }
    let per_item: u32 = BAR_HEIGHT_TALL as u32 + AXIS_GAP as u32;
    let count: u32 = num_items as u16 as u32;
    assert(per_item == 6);
    per_item * count <= u16::MAX as u32
}

pub fn bar_height_for(available_height: u16, num_items: usize) -> (h: u16)
    requires
        bar_rows_fit(num_items),
    ensures
        h == spec_bar_height_for(available_height, num_items),
        h >= 1,
{
    if num_items == 0 {
        return BAR_HEIGHT_THIN;
    }
    let k = num_items as u16;
    if (BAR_HEIGHT_TALL + AXIS_GAP) * k <= available_height {
        return BAR_HEIGHT_TALL;
    }
    if (BAR_HEIGHT_MEDIUM + AXIS_GAP) * k <= available_height {
        return BAR_HEIGHT_MEDIUM;
    }
    BAR_HEIGHT_THIN
}

pub open spec fn spec_capacity_for(area: Rect, count: usize) -> int {
    if count == 0 || area.height == 0 || area.width < AXIS_MIN_WIDTH {
        0
    } else {
        let item: int = spec_bar_height_for(area.height, count) + AXIS_GAP;
        let fit: int = area.height as int / item;
        if fit < count { fit } else { count as int }
    }
}

/// How many of `count` gauges `area` shows at once; none where it is empty
/// or narrower than a gauge needs.
pub fn capacity_for(area: Rect, count: usize) -> (n: usize)
    requires
        bar_rows_fit(count),
    ensures
        n == spec_capacity_for(area, count),
        n <= count,
{
    if count == 0 || area.height == 0 || area.width < AXIS_MIN_WIDTH {
        return 0;
    }
    let bar_height = bar_height_for(area.height, count);
    let item_height = bar_height + AXIS_GAP;
    let fit = (area.height / item_height) as usize;
    if fit < count {
        fit
    } else {
        count
    }
}

/// The gauge rows that show in `area` when the list of `num_items` axes is
/// scrolled to `scroll_offset`: the index of each axis shown, and its row.
pub open spec fn spec_axis_rows(area: Rect, num_items: usize, scroll_offset: usize) -> Seq<(usize, Rect)> {
    if num_items == 0 || area.height == 0 {
        seq![]
    } else {
        let bar: int = spec_bar_height_for(area.height, num_items) as int;
        let item: int = bar + AXIS_GAP;
        let (start, count) = spec_visible_window(num_items as int, scroll_offset as int, area.height as int / item);
        Seq::new(
            count as nat,
            |i: int|
                (
                    (start + i) as usize,
                    Rect { x: area.x, y: (area.y + i * item) as u16, width: area.width, height: bar as u16 },
                ),
        )
    }
}

/// Lays out the visible axis gauges of a scrolled list, one row each,
/// top to bottom.
pub fn axis_rows(area: Rect, num_items: usize, scroll_offset: usize) -> (rows: Vec<(usize, Rect)>)
    requires
        area.wf(),
        bar_rows_fit(num_items),
    ensures
        rows@ == spec_axis_rows(area, num_items, scroll_offset),
        forall|i: int| 0 <= i < rows@.len() ==> #[trigger] area.contains_rect(rows@[i].1),
{
    let mut rows: Vec<(usize, Rect)> = Vec::new();
    if num_items == 0 || area.height == 0 {
        return rows;
    }
    let bar_height = bar_height_for(area.height, num_items);
    let item_height = bar_height + AXIS_GAP;
    let max_visible = (area.height / item_height) as usize;
    let (start, count) = visible_window(num_items, scroll_offset, max_visible);
    let ghost item: int = item_height as int;
    let mut i: usize = 0;
    while i < count
        invariant
            area.wf(),
            item_height == bar_height + AXIS_GAP,
            bar_height >= 1,
            max_visible == area.height as int / item,
            item == item_height as int,
            count <= max_visible,
            start + count <= num_items,
            (start as int, count as int) == spec_visible_window(num_items as int, scroll_offset as int, max_visible as int),
            bar_height == spec_bar_height_for(area.height, num_items),
            i <= count,
            rows@ == spec_axis_rows(area, num_items, scroll_offset).take(i as int),
            forall|j: int| 0 <= j < rows@.len() ==> #[trigger] area.contains_rect(rows@[j].1),
        decreases count - i,
    {
        assert(i * item + item <= area.height) by (nonlinear_arith)
            requires
                0 <= i < count,
                count <= max_visible,
                max_visible == area.height as int / item,
                item >= 1,
        ;
        let y = area.y + (i as u16) * item_height;
        let row = (start + i, Rect::new(area.x, y, area.width, bar_height));
        rows.push(row);
        assert(rows@ =~= spec_axis_rows(area, num_items, scroll_offset).take(i + 1));
        i = i + 1;
    }
    assert(rows@ =~= spec_axis_rows(area, num_items, scroll_offset));
    rows
}

pub open spec fn spec_label_gauge_widths(width: u16) -> (u16, u16, u16) {
    let left_pad: int = if AXIS_LEFT_PADDING < width { AXIS_LEFT_PADDING as int } else { width as int };
    let padded: int = width - left_pad;
    let third: int = padded / 3;
    let label: int = if AXIS_LABEL_MAX < third { AXIS_LABEL_MAX as int } else { third };
    let gauge: int = if padded >= label + LABEL_GAUGE_GAP { padded - label - LABEL_GAUGE_GAP } else { 0 };
    (left_pad as u16, label as u16, gauge as u16)
}

/// How a gauge row splits: the left padding, the label's width (a third of
/// the rest, at most the label maximum) and the gauge's width (what the
/// label and the gap between them leave).
pub fn label_gauge_widths(width: u16) -> (w: (u16, u16, u16))
    ensures
        w == spec_label_gauge_widths(width),
        w.0 + w.1 + w.2 <= width,
{
    let left_pad = if AXIS_LEFT_PADDING < width { AXIS_LEFT_PADDING } else { width };
    let padded = width - left_pad;
    let third = padded / 3;
    let label = if AXIS_LABEL_MAX < third { AXIS_LABEL_MAX } else { third };
    let gauge = if padded >= label + LABEL_GAUGE_GAP { padded - label - LABEL_GAUGE_GAP } else { 0 };
    (left_pad, label, gauge)
}

/// How ratatui's horizontal layout of two columns `first` and `second`
/// cells wide splits `area`.
pub uninterp spec fn two_columns(area: Rect, first: u16, second: u16) -> (Rect, Rect);

/// Calls ratatui's `Layout::horizontal([Length(first), Length(second)]).areas`,
/// whose result depends on its arguments alone; named `two_columns`. Its
/// source gives every column of a horizontal layout without margin the
/// area's top row and height.
#[verifier::external_body]
fn split_two_columns(area: Rect, first: u16, second: u16) -> (r: (Rect, Rect))
    ensures
        r == two_columns(area, first, second),
        r.0.y == area.y && r.0.height == area.height,
        r.1.y == area.y && r.1.height == area.height,
{
    let outer = ratatui::layout::Rect { x: area.x, y: area.y, width: area.width, height: area.height };
    let [a, b] = Layout::horizontal([Constraint::Length(first), Constraint::Length(second)]).areas(outer);
    (Rect { x: a.x, y: a.y, width: a.width, height: a.height }, Rect { x: b.x, y: b.y, width: b.width, height: b.height })
}

/// The columns of a gauge row: the padded row split into a label column
/// and a gauge column of the widths `spec_label_gauge_widths` gives.
pub open spec fn label_gauge_columns(area: Rect) -> (Rect, Rect) {
    let (left_pad, label_width, gauge_width) = spec_label_gauge_widths(area.width);
    let padded = Rect::spec_new((area.x + left_pad) as u16, area.y, (area.width - left_pad) as u16, area.height);
    two_columns(padded, label_width, gauge_width)
}

/// The row of the label in a gauge row of `area`: the middle row of the
/// label column where the row is taller than one line.
pub open spec fn spec_label_row(area: Rect, label: Rect) -> Rect {
    Rect {
        x: label.x,
        y: (if area.height > 1 { label.y + area.height / 2 } else { label.y as int }) as u16,
        width: label.width,
        height: 1,
    }
}

/// Splits a gauge row into the line that shows the axis name and the area
/// of its gauge.
pub fn split_label_gauge(area: Rect) -> (r: (Rect, Rect))
    requires
        area.wf(),
    ensures
        r.0 == Rect::spec_new(spec_label_row(area, label_gauge_columns(area).0).x,
            spec_label_row(area, label_gauge_columns(area).0).y,
            spec_label_row(area, label_gauge_columns(area).0).width, 1),
        r.1 == label_gauge_columns(area).1,
        r.0.height <= 1,
{
    let (left_pad, label_width, gauge_width) = label_gauge_widths(area.width);
    let padded = Rect::new(area.x + left_pad, area.y, area.width - left_pad, area.height);
    let (label_area, gauge_area) = split_two_columns(padded, label_width, gauge_width);
    let label_y = if area.height > 1 { label_area.y + area.height / 2 } else { label_area.y };
    (Rect::new(label_area.x, label_y, label_area.width, 1), gauge_area)
}

} // verus!
