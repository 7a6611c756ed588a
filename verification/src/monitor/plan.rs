use vstd::prelude::*;

use crate::monitor::config::{self, AXIS_MIN_WIDTH, BTN_COL_GAP, COMPACT_BTN_COL_GAP, TOUCHPAD_MIN_WIDTH};
use crate::monitor::layout::{
    box_layout, layout_fits, layout_fits_check, spec_box_layout, AxesPanel, BoxLayout, ButtonsPanel, HatPanel,
    JoystickPanel, LayoutRequest, TouchPanel,
};
use crate::monitor::render::axis::{bar_rows_fit, bar_rows_fit_count, capacity_for, spec_capacity_for};
use crate::monitor::render::buttons::{spec_grid_metrics, GridMetrics};
use crate::monitor::state::{Focus, MonitorState};
use crate::monitor::view_model::MonitorViewModel;
use crate::rect::Rect;
use crate::ui::widgets::{bordered_box_inner, spec_bordered_inner};

verus! {

/// Numbers of absolute axes, relative axes and buttons of a device.
#[derive(Clone, Copy, Debug, PartialEq, Eq, Structural)]
pub struct Counts {
    pub abs: usize,
    pub rel: usize,
    pub btn: usize,
}

impl Counts {
    pub fn new(abs: usize, rel: usize, btn: usize) -> (c: Self)
        ensures
            c == (Counts { abs, rel, btn }),
    {
        Self { abs, rel, btn }
    }

    pub open spec fn spec_total_axes(self) -> int {
        self.abs + self.rel
    }

    /// Absolute and relative axes together.
    pub fn total_axes(&self) -> (n: usize)
        requires
            self.abs + self.rel <= usize::MAX,
        ensures
            n == self.spec_total_axes(),
    {
        self.abs + self.rel
    }

    pub fn has_buttons(&self) -> (b: bool)
        ensures
            b == (self.btn > 0),
    {
        self.btn > 0
    }

    /// The counts of the sections that are visible; hidden ones count zero.
    pub fn filtered(&self, abs_visible: bool, rel_visible: bool, buttons_visible: bool) -> (c: Self)
        ensures
            c.abs == (if abs_visible { self.abs } else { 0 }),
            c.rel == (if rel_visible { self.rel } else { 0 }),
            c.btn == (if buttons_visible { self.btn } else { 0 }),
    {
        Self {
            abs: if abs_visible { self.abs } else { 0 },
            rel: if rel_visible { self.rel } else { 0 },
            btn: if buttons_visible { self.btn } else { 0 },
        }
    }
}

/// Scroll positions: the first visible axis and the first visible button row.
#[derive(Clone, Copy, Debug, PartialEq, Eq, Structural)]
pub struct ScrollState {
    pub axis: usize,
    pub button_row: usize,
}

/// How far each section may scroll, and whether it overflows its area at all.
#[derive(Clone, Copy, Debug, PartialEq, Eq, Structural)]
pub struct ScrollBounds {
    pub axes_max: usize,
    pub button_row_max_start: usize,
    pub axes_overflow: bool,
    pub buttons_overflow: bool,
}

impl ScrollBounds {
    pub fn new(
        axes_max: usize,
        button_row_max_start: usize,
        axes_overflow: bool,
        buttons_overflow: bool,
    ) -> (b: Self)
        ensures
            b == (ScrollBounds { axes_max, button_row_max_start, axes_overflow, buttons_overflow }),
    {
        Self { axes_max, button_row_max_start, axes_overflow, buttons_overflow }
    }
}

/// What keyboard navigation needs to know of the last rendered frame.
#[derive(Clone, Copy, Debug, PartialEq, Eq, Structural)]
pub struct NavigationContext {
    pub focus: Focus,
    pub scroll: ScrollState,
    pub scroll_bounds: ScrollBounds,
    pub focusable: bool,
}

impl NavigationContext {
    pub fn new(focus: Focus, scroll: ScrollState, scroll_bounds: ScrollBounds, focusable: bool) -> (n:
        Self)
        ensures
            n == (NavigationContext { focus, scroll, scroll_bounds, focusable }),
    {
        Self { focus, scroll, scroll_bounds, focusable }
    }

    pub fn focus(self) -> (f: Focus)
        ensures
            f == self.focus,
    {
        self.focus
    }

    pub fn scroll(self) -> (s: ScrollState)
        ensures
            s == self.scroll,
    {
        self.scroll
    }

    pub fn scroll_bounds(self) -> (b: ScrollBounds)
        ensures
            b == self.scroll_bounds,
    {
        self.scroll_bounds
    }

    pub fn focusable(self) -> (b: bool)
        ensures
            b == self.focusable,
    {
        self.focusable
    }
}

pub open spec fn spec_synced_focus(current: Focus, axes_box_present: bool, buttons_box_present: bool) -> Focus {
    match (axes_box_present, buttons_box_present) {
        (true, false) => Focus::Axes,
        (false, true) => Focus::Buttons,
        _ => current,
    }
}

/// Moves the focus to the only section that is on screen; keeps it when both
/// or neither are shown.
pub fn synced_focus(current: Focus, axes_box_present: bool, buttons_box_present: bool) -> (f: Focus)
    ensures
        f == spec_synced_focus(current, axes_box_present, buttons_box_present),
        axes_box_present && !buttons_box_present ==> f == Focus::Axes,
        !axes_box_present && buttons_box_present ==> f == Focus::Buttons,
{
    match (axes_box_present, buttons_box_present) {
        (true, true) => current,
        (true, false) => Focus::Axes,
        (false, true) => Focus::Buttons,
        (false, false) => current,
    }
}

/// The smallest gap between buttons of either grid style; a button column
/// narrower than it shows no buttons.
pub open spec fn spec_min_button_gap() -> u16 {
    if BTN_COL_GAP >= COMPACT_BTN_COL_GAP { BTN_COL_GAP } else { COMPACT_BTN_COL_GAP }
}

/// The panels a frame of `content` asks the box layout for: the joystick,
/// d-pad, touchpad, axes and buttons the device has, each of the last three
/// only where `content` is wide enough for it.
pub open spec fn spec_frame_request(content: Rect, min_button_gap: u16, view: MonitorViewModel) -> LayoutRequest {
    let sticks = view.joystick.spec_count();
    LayoutRequest {
        joystick: if sticks > 0 { Some(JoystickPanel { columns: sticks as usize }) } else { None },
        hat: if view.hat_state is Some { Some(HatPanel) } else { None },
        touch: if view.touch_enabled && content.width >= TOUCHPAD_MIN_WIDTH { Some(TouchPanel) } else { None },
        axes: if view.axes_available && content.width >= AXIS_MIN_WIDTH { Some(AxesPanel) } else { None },
        buttons: if view.buttons_available && content.width / (config::spec_buttons_per_row() as u16) > min_button_gap {
            Some(ButtonsPanel)
        } else {
            None
        },
    }
}

/// The panels a frame of `content` asks the box layout for.
pub fn frame_request(content: Rect, min_button_gap: u16, view_model: &MonitorViewModel) -> (r: LayoutRequest)
    ensures
        r == spec_frame_request(content, min_button_gap, *view_model),
{
    let per_row = config::buttons_per_row() as u16;
    let axes_present = view_model.axes_available && content.width >= AXIS_MIN_WIDTH;
    let touch_present = view_model.touch_enabled && content.width >= TOUCHPAD_MIN_WIDTH;
    let buttons_present = view_model.buttons_available && content.width / per_row > min_button_gap;
    let sticks = view_model.joystick_count();
    LayoutRequest::new(
        if sticks > 0 { Some(JoystickPanel::new(sticks)) } else { None },
        if view_model.hat_present() { Some(HatPanel::new()) } else { None },
        if touch_present { Some(TouchPanel::new()) } else { None },
        if axes_present { Some(AxesPanel::new()) } else { None },
        if buttons_present { Some(ButtonsPanel::new()) } else { None },
    )
}

/// The cells inside a panel's border, for each panel placed.
#[derive(Clone, Copy, Debug, PartialEq, Eq, Structural)]
pub struct PlannedAreas {
    pub joystick: Option<Rect>,
    pub hat: Option<Rect>,
    pub axes: Option<Rect>,
    pub touch: Option<Rect>,
    pub buttons: Option<Rect>,
}

/// Each planned area lies within `content`.
pub open spec fn areas_inside(content: Rect, areas: PlannedAreas) -> bool {
    &&& (areas.joystick matches Some(r) ==> content.contains_rect(r))
    &&& (areas.hat matches Some(r) ==> content.contains_rect(r))
    &&& (areas.axes matches Some(r) ==> content.contains_rect(r))
    &&& (areas.touch matches Some(r) ==> content.contains_rect(r))
    &&& (areas.buttons matches Some(r) ==> content.contains_rect(r))
}

pub open spec fn inner_of(b: Option<Rect>) -> Option<Rect> {
    match b {
        Some(r) => Some(spec_bordered_inner(r)),
        None => None,
    }
}

pub open spec fn spec_inner_areas(boxes: BoxLayout) -> PlannedAreas {
    PlannedAreas {
        joystick: inner_of(boxes.joystick_box),
        hat: inner_of(boxes.hat_box),
        axes: inner_of(boxes.axes_box),
        touch: inner_of(boxes.touch_box),
        buttons: inner_of(boxes.buttons_box),
    }
}

proof fn lemma_inner_inside(area: Rect, b: Option<Rect>)
    requires
        b matches Some(r) ==> area.contains_rect(r),
    ensures
        inner_of(b) matches Some(r) ==> area.contains_rect(r),
{
}

fn inner_area(b: Option<Rect>) -> (r: Option<Rect>)
    ensures
        r == inner_of(b),
{
    match b {
        Some(area) => Some(bordered_box_inner(area)),
        None => None,
    }
}

/// Where a frame puts its panels, and which section ends up focused.
pub struct AreaPlan {
    pub focus: Focus,
    pub boxes: BoxLayout,
    pub areas: PlannedAreas,
}

/// Whether the box layout can take the panels a frame of `content` asks for.
pub open spec fn frame_fits(content: Rect, min_button_gap: u16, view: MonitorViewModel) -> bool {
    layout_fits(content, spec_frame_request(content, min_button_gap, view))
}

/// Lays out the panels of a frame in `content`, finds the cells inside
/// their borders, and moves the focus to the only scrollable section shown.
#[verifier::spinoff_prover]
pub fn plan_areas(content: Rect, min_button_gap: u16, current_focus: Focus, view_model: &MonitorViewModel) -> (p: AreaPlan)
    requires
        frame_fits(content, min_button_gap, *view_model),
    ensures
        p.boxes == spec_box_layout(content, spec_frame_request(content, min_button_gap, *view_model)),
        p.areas == spec_inner_areas(p.boxes),
        p.focus == spec_synced_focus(current_focus, p.boxes.axes_box is Some, p.boxes.buttons_box is Some),
        content.wf() ==> areas_inside(content, p.areas),
{
    let request = frame_request(content, min_button_gap, view_model);
    let boxes = box_layout(content, request);
    let areas = PlannedAreas {
        joystick: inner_area(boxes.joystick_box),
        hat: inner_area(boxes.hat_box),
        axes: inner_area(boxes.axes_box),
        touch: inner_area(boxes.touch_box),
        buttons: inner_area(boxes.buttons_box),
    };
    proof {
        if content.wf() {
            lemma_inner_inside(content, boxes.joystick_box);
            lemma_inner_inside(content, boxes.hat_box);
            lemma_inner_inside(content, boxes.axes_box);
            lemma_inner_inside(content, boxes.touch_box);
            lemma_inner_inside(content, boxes.buttons_box);
        }
    }
    let focus = synced_focus(current_focus, boxes.axes_box.is_some(), boxes.buttons_box.is_some());
    AreaPlan { focus, boxes, areas }
}

/// Rows of `buttons` buttons in a grid of `per_row` columns.
pub open spec fn spec_button_rows(buttons: usize, per_row: usize) -> int {
    if per_row == 0 { 0 } else if buttons % per_row == 0 { (buttons / per_row) as int } else { buttons / per_row + 1 }
}

/// How many axis gauges and button rows show at once in the planned areas.
#[derive(Clone, Copy, Debug, PartialEq, Eq, Structural)]
pub struct VisibleCapacities {
    pub axes: usize,
    pub button_rows: usize,
}

pub open spec fn spec_visible_capacities(counts: Counts, areas: PlannedAreas) -> VisibleCapacities {
    VisibleCapacities {
        axes: match areas.axes {
            Some(a) => spec_capacity_for(a, (counts.abs + counts.rel) as usize) as usize,
            None => 0,
        },
        button_rows: match areas.buttons {
            Some(a) => if spec_grid_metrics(a).spec_renderable() { spec_grid_metrics(a).max_rows } else { 0 },
            None => 0,
        },
    }
}

impl VisibleCapacities {
    /// The gauges that fit the axes area, and the button rows of a grid
    /// that can be drawn in the buttons area.
    pub fn from_areas(counts: Counts, areas: &PlannedAreas) -> (c: Self)
        requires
            counts.abs + counts.rel <= usize::MAX,
            bar_rows_fit((counts.abs + counts.rel) as usize),
        ensures
            c == spec_visible_capacities(counts, *areas),
            c.axes <= counts.abs + counts.rel,
    {
        let axes = match areas.axes {
            Some(a) => capacity_for(a, counts.abs + counts.rel),
            None => 0,
        };
        let button_rows = match areas.buttons {
            Some(a) => {
                let metrics = GridMetrics::for_area(a);
                if metrics.renderable() { metrics.max_rows } else { 0 }
            },
            None => 0,
        };
        VisibleCapacities { axes, button_rows }
    }
}

pub open spec fn spec_scroll_bounds(counts: Counts, axes_capacity: usize, button_rows_capacity: usize) -> ScrollBounds {
    let total = counts.abs + counts.rel;
    let rows = spec_button_rows(counts.btn, config::spec_buttons_per_row());
    ScrollBounds {
        axes_max: if total > axes_capacity { (total - axes_capacity) as usize } else { 0 },
        button_row_max_start: if rows > button_rows_capacity { (rows - button_rows_capacity) as usize } else { 0 },
        axes_overflow: total > axes_capacity,
        buttons_overflow: rows > button_rows_capacity,
    }
}

impl ScrollBounds {
    /// The axes list scrolls as far as shows its last gauge, the button grid
    /// as far as shows its last row; a section that fits does not scroll.
    pub fn from_capacities(counts: Counts, axes_capacity: usize, button_rows_capacity: usize) -> (b: Self)
        requires
            counts.abs + counts.rel <= usize::MAX,
        ensures
            b == spec_scroll_bounds(counts, axes_capacity, button_rows_capacity),
            !b.axes_overflow ==> b.axes_max == 0,
            !b.buttons_overflow ==> b.button_row_max_start == 0,
    {
        let total = counts.abs + counts.rel;
        let per_row = config::buttons_per_row();
        let rows = if counts.btn % per_row == 0 { counts.btn / per_row } else { counts.btn / per_row + 1 };
        ScrollBounds {
            axes_max: if total > axes_capacity { total - axes_capacity } else { 0 },
            button_row_max_start: if rows > button_rows_capacity { rows - button_rows_capacity } else { 0 },
            axes_overflow: total > axes_capacity,
            buttons_overflow: rows > button_rows_capacity,
        }
    }
}

pub open spec fn min_usize(a: usize, b: usize) -> usize {
    if a <= b { a } else { b }
}

/// Scroll positions kept within how far each section scrolls.
pub fn clamp_scroll_state(axis_scroll: usize, button_row_scroll: usize, bounds: &ScrollBounds) -> (s: ScrollState)
    ensures
        s.axis == min_usize(axis_scroll, bounds.axes_max),
        s.button_row == min_usize(button_row_scroll, bounds.button_row_max_start),
{
    ScrollState {
        axis: if axis_scroll <= bounds.axes_max { axis_scroll } else { bounds.axes_max },
        button_row: if button_row_scroll <= bounds.button_row_max_start {
            button_row_scroll
        } else {
            bounds.button_row_max_start
        },
    }
}

/// Everything a frame of the monitor needs: where each panel goes, the
/// focus, the scroll positions and how far each section scrolls.
pub struct RenderPlan {
    pub focus: Focus,
    pub scroll: ScrollState,
    pub effective_counts: Counts,
    pub scroll_bounds: ScrollBounds,
    pub boxes: BoxLayout,
    pub areas: PlannedAreas,
}

impl RenderPlan {
    /// Focus can move only while both the axes and the buttons are shown.
    pub fn focusable(&self) -> (b: bool)
        ensures
            b == (self.boxes.axes_box is Some && self.boxes.buttons_box is Some),
    {
        self.boxes.axes_box.is_some() && self.boxes.buttons_box.is_some()
    }

    /// The part of the plan that keyboard navigation reads.
    pub open spec fn spec_navigation(self) -> NavigationContext {
        NavigationContext {
            focus: self.focus,
            scroll: self.scroll,
            scroll_bounds: self.scroll_bounds,
            focusable: self.boxes.axes_box is Some && self.boxes.buttons_box is Some,
        }
    }

    /// The part of the plan that keyboard navigation reads.
    pub fn navigation_context(&self) -> (n: NavigationContext)
        ensures
            n == self.spec_navigation(),
    {
        NavigationContext::new(self.focus, self.scroll, self.scroll_bounds, self.focusable())
    }
}

/// The plan of a frame whose panels go in `content`: the boxes the layout
/// gives, the cells inside their borders, the focus of `state` moved to the
/// only section shown, the counts of the sections that show anything, and
/// the scroll positions of `state` kept within how far those sections
/// scroll.
pub open spec fn is_render_plan(p: RenderPlan, content: Rect, state: MonitorState, view: MonitorViewModel) -> bool {
    let caps = spec_visible_capacities(state.counts, p.areas);
    &&& p.boxes == spec_box_layout(content, spec_frame_request(content, spec_min_button_gap(), view))
    &&& p.areas == spec_inner_areas(p.boxes)
    &&& p.focus == spec_synced_focus(state.focus, p.boxes.axes_box is Some, p.boxes.buttons_box is Some)
    &&& p.effective_counts.abs == (if caps.axes > 0 { state.counts.abs } else { 0 })
    &&& p.effective_counts.rel == (if caps.axes > 0 { state.counts.rel } else { 0 })
    &&& p.effective_counts.btn == (if caps.button_rows > 0 { state.counts.btn } else { 0 })
    &&& p.scroll_bounds == spec_scroll_bounds(p.effective_counts, caps.axes, caps.button_rows)
    &&& p.scroll.axis == min_usize(state.axis_scroll, p.scroll_bounds.axes_max)
    &&& p.scroll.button_row == min_usize(state.button_row_scroll, p.scroll_bounds.button_row_max_start)
}

/// Whether `build_render_plan` can take these arguments: the axes can be
/// counted and laid out in 16-bit rows, and the box layout can split the
/// frame.
pub fn can_build_render_plan(content: Rect, state: &MonitorState, view_model: &MonitorViewModel) -> (b: bool)
    ensures
        b == (state.counts.abs + state.counts.rel <= usize::MAX
            && bar_rows_fit((state.counts.abs + state.counts.rel) as usize)
            && frame_fits(content, spec_min_button_gap(), *view_model)),
{
    let counts = state.counts();
    if counts.abs > usize::MAX - counts.rel {
        return false;
    }
    if !bar_rows_fit_count(counts.abs + counts.rel) {
        return false;
    }
    let min_button_gap = if BTN_COL_GAP >= COMPACT_BTN_COL_GAP { BTN_COL_GAP } else { COMPACT_BTN_COL_GAP };
    layout_fits_check(content, frame_request(content, min_button_gap, view_model))
}

/// Plans a frame whose panels go in `content`.
pub fn build_render_plan(content: Rect, state: &MonitorState, view_model: &MonitorViewModel) -> (p: RenderPlan)
    requires
        state.counts.abs + state.counts.rel <= usize::MAX,
        bar_rows_fit((state.counts.abs + state.counts.rel) as usize),
        frame_fits(content, spec_min_button_gap(), *view_model),
    ensures
        is_render_plan(p, content, *state, *view_model),
        content.wf() ==> areas_inside(content, p.areas),
{
    let min_button_gap = if BTN_COL_GAP >= COMPACT_BTN_COL_GAP { BTN_COL_GAP } else { COMPACT_BTN_COL_GAP };
    let area_plan = plan_areas(content, min_button_gap, state.focus(), view_model);
    let counts = state.counts();
    let capacities = VisibleCapacities::from_areas(counts, &area_plan.areas);
    let axes_visible = capacities.axes > 0;
    let buttons_visible = capacities.button_rows > 0;
    let effective_counts = counts.filtered(axes_visible, axes_visible, buttons_visible);
    let scroll_bounds = ScrollBounds::from_capacities(effective_counts, capacities.axes, capacities.button_rows);
    let scroll = clamp_scroll_state(state.axis_scroll(), state.button_row_scroll(), &scroll_bounds);
    RenderPlan {
        focus: area_plan.focus,
        scroll,
        effective_counts,
        scroll_bounds,
        boxes: area_plan.boxes,
        areas: area_plan.areas,
    }
}

} // verus!
