use vstd::prelude::*;

use crate::monitor::config::{
    self, buttons_per_row, spec_buttons_per_row, BTN_COL_GAP, BTN_SECTION_TOP_PADDING,
    BTN_SECTION_VERT_PADDING, BUTTON_HEIGHT, COMPACT_BTN_COL_GAP,
};
use crate::rect::Rect;

verus! {

/// How the button grid fits an area: column width, rows that fit, row
/// height, padding above the first row, gap after each button, and whether
/// the grid falls back to one-line buttons.
#[derive(Clone, Copy, Debug, PartialEq, Eq)]
pub struct GridMetrics {
    pub button_width: u16,
    pub max_rows: usize,
    pub row_height: u16,
    pub top_padding: u16,
    pub col_gap: u16,
    pub compact: bool,
}

pub open spec fn spec_grid_metrics(area: Rect) -> GridMetrics {
    let compact = area.height < BUTTON_HEIGHT + BTN_SECTION_VERT_PADDING;
    let row_height: u16 = if compact { 1 } else { BUTTON_HEIGHT };
    let vert_padding: u16 = if compact { 0 } else { BTN_SECTION_VERT_PADDING };
    let usable: int = if area.height >= vert_padding { area.height - vert_padding } else { 0 };
    GridMetrics {
        button_width: (area.width / spec_buttons_per_row() as u16) as u16,
        max_rows: (usable / row_height as int) as usize,
        row_height,
        top_padding: if compact { 0 } else { BTN_SECTION_TOP_PADDING },
        col_gap: if compact { COMPACT_BTN_COL_GAP } else { BTN_COL_GAP },
        compact,
    }
}

impl GridMetrics {
    /// The grid for `area`: full-height buttons where the area holds one row
    /// of them with its padding, else one-line buttons.
    pub fn for_area(area: Rect) -> (m: Self)
        ensures
            m == spec_grid_metrics(area),
    {
        let compact = area.height < BUTTON_HEIGHT + BTN_SECTION_VERT_PADDING;
        let row_height: u16 = if compact { 1 } else { BUTTON_HEIGHT };
        let top_padding: u16 = if compact { 0 } else { BTN_SECTION_TOP_PADDING };
        let col_gap: u16 = if compact { COMPACT_BTN_COL_GAP } else { BTN_COL_GAP };
        let vert_padding: u16 = if compact { 0 } else { BTN_SECTION_VERT_PADDING };
        let per_row = buttons_per_row() as u16;
        let button_width = area.width / per_row;
        let usable: u16 = if area.height >= vert_padding { area.height - vert_padding } else { 0 };
        let max_rows = (usable / row_height) as usize;
        GridMetrics { button_width, max_rows, row_height, top_padding, col_gap, compact }
    }

    pub open spec fn spec_renderable(self) -> bool {
        self.max_rows > 0 && self.button_width > self.col_gap
    }

    /// At least one row fits and a button is wider than its gap.
    pub fn renderable(&self) -> (b: bool)
        ensures
            b == self.spec_renderable(),
    {
        self.max_rows > 0 && self.button_width > self.col_gap
    }
}

/// The buttons of the grid that show: from the first button of the
/// scrolled-to row, as many as the rows that fit hold.
#[derive(Clone, Copy, Debug, PartialEq, Eq)]
pub struct ButtonLayout {
    pub area: Rect,
    pub metrics: GridMetrics,
    pub start_button: usize,
    pub visible_count: usize,
}

pub open spec fn spec_button_layout(area: Rect, total_buttons: usize, scroll_row_offset: usize) -> Option<
    ButtonLayout,
> {
    let metrics = spec_grid_metrics(area);
    let start: int = scroll_row_offset * spec_buttons_per_row();
    let capacity: int = metrics.max_rows * spec_buttons_per_row();
    let remaining: int = if total_buttons >= start { total_buttons - start } else { 0 };
    let visible: int = if remaining < capacity { remaining } else { capacity };
    if total_buttons == 0 || !metrics.spec_renderable() || visible == 0 {
        None
    } else {
        Some(
            ButtonLayout {
                area,
                metrics,
                start_button: start as usize,
                visible_count: visible as usize,
            },
        )
    }
}

/// Row and column of the `index`-th visible button.
pub open spec fn spec_grid_position(index: int) -> (int, int) {
    (index / spec_buttons_per_row() as int, index % spec_buttons_per_row() as int)
}

pub fn grid_position(index: usize) -> (p: (usize, usize))
    ensures
        p.0 == spec_grid_position(index as int).0,
        p.1 == spec_grid_position(index as int).1,
{
    let per_row = buttons_per_row();
    (index / per_row, index % per_row)
}

impl ButtonLayout {
    /// What every layout keeps: its grid is the one of its area and fits,
    /// and the visible buttons fill at most the rows that fit.
    pub open spec fn wf(self) -> bool {
        &&& self.area.wf()
        &&& self.metrics == spec_grid_metrics(self.area)
        &&& self.metrics.spec_renderable()
        &&& 0 < self.visible_count <= self.metrics.max_rows * spec_buttons_per_row()
        &&& self.start_button + self.visible_count <= usize::MAX
    }

    /// The layout of `total_buttons` buttons in `area`, scrolled down by
    /// `scroll_row_offset` rows; `None` where no button would show.
    pub fn new(area: Rect, total_buttons: usize, scroll_row_offset: usize) -> (l: Option<Self>)
        requires
            area.wf(),
            scroll_row_offset * spec_buttons_per_row() <= usize::MAX,
        ensures
            l == spec_button_layout(area, total_buttons, scroll_row_offset),
            l matches Some(layout) ==> layout.wf(),
    {
        if total_buttons == 0 {
            return None;
        }
        let metrics = GridMetrics::for_area(area);
        if !metrics.renderable() {
            return None;
        }
        let per_row = buttons_per_row();
        let start_button = scroll_row_offset * per_row;
        assert(metrics.max_rows <= u16::MAX);
        let max_visible_buttons = metrics.max_rows * per_row;
        let remaining = if total_buttons >= start_button { total_buttons - start_button } else { 0 };
        let visible_count = if remaining < max_visible_buttons { remaining } else { max_visible_buttons };
        if visible_count == 0 {
            return None;
        }
        Some(ButtonLayout { area, metrics, start_button, visible_count })
    }

    pub fn visible_count(&self) -> (n: usize)
        ensures
            n == self.visible_count,
    {
        self.visible_count
    }

    pub fn compact(&self) -> (b: bool)
        ensures
            b == self.metrics.compact,
    {
        self.metrics.compact
    }

    /// The index among all buttons of the `visible_index`-th visible one.
    pub fn button_index(&self, visible_index: usize) -> (i: usize)
        requires
            self.wf(),
            visible_index < self.visible_count,
        ensures
            i == self.start_button + visible_index,
    {
        self.start_button + visible_index
    }

    pub open spec fn spec_button_area(self, visible_index: int) -> Rect {
        let (row, col) = spec_grid_position(visible_index);
        let m = self.metrics;
        Rect {
            x: (self.area.x + col * m.button_width) as u16,
            y: (self.area.y + m.top_padding + row * m.row_height) as u16,
            width: (if m.button_width >= m.col_gap { m.button_width - m.col_gap } else { 0 }) as u16,
            height: m.row_height,
        }
    }

    /// The cells of the `visible_index`-th visible button: its column and
    /// row of the grid, less the gap after it.
    pub fn button_area(&self, visible_index: usize) -> (r: Rect)
        requires
            self.wf(),
            visible_index < self.visible_count,
        ensures
            r == self.spec_button_area(visible_index as int),
            self.area.contains_rect(r),
    {
        let (row, col) = grid_position(visible_index);
        let m = self.metrics;
        proof {
            lemma_grid_cell_fits(self.area, m, visible_index as int, self.visible_count as int);
        }
        let x = self.area.x + (col as u16) * m.button_width;
        let y = self.area.y + m.top_padding + (row as u16) * m.row_height;
        let width = if m.button_width >= m.col_gap { m.button_width - m.col_gap } else { 0 };
        Rect::new(x, y, width, m.row_height)
    }

    pub open spec fn spec_separator(self, row: int, col: int) -> (u16, u16) {
        let m = self.metrics;
        (
            (self.area.x + col * m.button_width + (m.button_width - m.col_gap)) as u16,
            (self.area.y + m.top_padding + row * m.row_height) as u16,
        )
    }

    /// The number of buttons on grid row `row`.
    pub open spec fn row_len(self, row: int) -> int {
        let rest = self.visible_count - row * spec_buttons_per_row();
        if rest < spec_buttons_per_row() { rest } else { spec_buttons_per_row() as int }
    }

    /// The separators of grid row `row`: one after each button but the last.
    pub open spec fn row_separators(self, row: int) -> Seq<(u16, u16)> {
        let n = self.row_len(row);
        if n <= 1 {
            seq![]
        } else {
            Seq::new((n - 1) as nat, |c: int| self.spec_separator(row, c))
        }
    }

    pub open spec fn separators_upto(self, rows: nat) -> Seq<(u16, u16)>
        decreases rows,
    {
        if rows == 0 {
            seq![]
        } else {
            self.separators_upto((rows - 1) as nat) + self.row_separators(rows - 1)
        }
    }

    pub open spec fn spec_row_count(self) -> nat {
        ((self.visible_count + spec_buttons_per_row() - 1) / spec_buttons_per_row() as int) as nat
    }

    pub open spec fn spec_separator_positions(self) -> Seq<(u16, u16)> {
        if !self.metrics.compact || self.metrics.col_gap == 0 {
            seq![]
        } else {
            self.separators_upto(self.spec_row_count())
        }
    }

    /// Where the bars between one-line buttons go, row by row: after each
    /// button of a row but the last. Full-height buttons have none.
    pub fn separator_positions(&self) -> (s: Vec<(u16, u16)>)
        requires
            self.wf(),
        ensures
            s@ == self.spec_separator_positions(),
    {
        let mut positions: Vec<(u16, u16)> = Vec::new();
        if !self.metrics.compact || self.metrics.col_gap == 0 {
            return positions;
        }
        let columns = buttons_per_row();
        let rows = (self.visible_count + columns - 1) / columns;
        let m = self.metrics;
        let mut row: usize = 0;
        while row < rows
            invariant
                self.wf(),
                m == self.metrics,
                m.compact,
                m.col_gap != 0,
                columns == spec_buttons_per_row(),
                rows == self.spec_row_count(),
                row <= rows,
                positions@ == self.separators_upto(row as nat),
            decreases rows - row,
        {
            let row_start = row * columns;
            let left = self.visible_count - row_start;
            let in_row = if left < columns { left } else { columns };
            let ghost before = positions@;
            if in_row > 1 {
                let mut col: usize = 0;
                while col < in_row - 1
                    invariant
                        self.wf(),
                        m == self.metrics,
                        m.compact,
                        row < rows,
                        rows == self.spec_row_count(),
                        in_row == self.row_len(row as int),
                        1 < in_row <= 3,
                        col <= in_row - 1,
                        positions@ == before + Seq::new(col as nat, |c: int| self.spec_separator(row as int, c)),
                    decreases in_row - 1 - col,
                {
                    proof {
                        lemma_separator_fits(*self, row as int, col as int);
                    }
                    let x = self.area.x + (col as u16) * m.button_width + (m.button_width - m.col_gap);
                    let y = self.area.y + m.top_padding + (row as u16) * m.row_height;
                    positions.push((x, y));
                    assert(positions@ =~= before + Seq::new((col + 1) as nat, |c: int| self.spec_separator(row as int, c)));
                    col = col + 1;
                }
            }
            assert(positions@ =~= self.separators_upto((row + 1) as nat));
            row = row + 1;
        }
        positions
    }
}

/// Every visible button's cell lies in the grid's area.
proof fn lemma_grid_cell_fits(area: Rect, m: GridMetrics, index: int, visible: int)
    requires
        area.wf(),
        m == spec_grid_metrics(area),
        m.spec_renderable(),
        0 <= index < visible,
        visible <= m.max_rows * 3,
    ensures
        ({
            let row = index / 3;
            let col = index % 3;
            &&& 0 <= col < 3
            &&& 0 <= row < m.max_rows
            &&& col * m.button_width + m.button_width <= area.width
            &&& m.top_padding + row * m.row_height + m.row_height <= area.height
        }),
{
    let row = index / 3;
    let col = index % 3;
    assert(row < m.max_rows) by (nonlinear_arith)
        requires
            0 <= index < visible,
            visible <= m.max_rows * 3,
            row == index / 3,
    ;
    assert(col * m.button_width + m.button_width <= area.width) by (nonlinear_arith)
        requires
            0 <= col < 3,
            m.button_width == area.width / 3,
    ;
    let vp: int = if m.compact { 0 } else { 2 };
    let usable: int = if area.height >= vp { area.height - vp } else { 0 };
    assert(m.max_rows * m.row_height <= usable) by (nonlinear_arith)
        requires
            m.row_height >= 1,
            m.max_rows == usable / m.row_height as int,
            usable >= 0,
    ;
    assert(row * m.row_height + m.row_height <= m.max_rows * m.row_height) by (nonlinear_arith)
        requires
            0 <= row < m.max_rows,
            m.row_height >= 1,
    ;
}

/// Every separator of a one-line grid lies in the grid's area.
proof fn lemma_separator_fits(l: ButtonLayout, row: int, col: int)
    requires
        l.wf(),
        l.metrics.compact,
        0 <= row < l.spec_row_count(),
        0 <= col < l.row_len(row) - 1,
    ensures
        l.area.x + col * l.metrics.button_width + (l.metrics.button_width - l.metrics.col_gap) < l.area.x
            + l.area.width,
        l.area.y + l.metrics.top_padding + row * l.metrics.row_height < l.area.y + l.area.height,
        row < u16::MAX,
{
    let m = l.metrics;
    assert(l.row_len(row) <= 3);
    assert(col <= 1);
    assert(col * m.button_width + m.button_width <= 2 * m.button_width) by (nonlinear_arith)
        requires
            0 <= col <= 1,
            m.button_width >= 0,
    ;
    assert(2 * m.button_width < l.area.width) by (nonlinear_arith)
        requires
            m.button_width == l.area.width / 3,
            m.button_width >= 1,
    ;
    assert(row < m.max_rows) by (nonlinear_arith)
        requires
            0 <= row,
            row < (l.visible_count + 2) / 3,
            l.visible_count <= m.max_rows * 3,
    ;
    assert(m.row_height == 1 && m.top_padding == 0);
    assert(m.max_rows <= l.area.height);
}

} // verus!
