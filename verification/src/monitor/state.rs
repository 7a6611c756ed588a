use vstd::prelude::*;

use crate::monitor::config::StartupFocus;
use crate::monitor::plan::{Counts, NavigationContext};

verus! {

/// The scrollable section that keyboard scrolling moves.
#[derive(Clone, Copy, Debug, PartialEq, Eq, Structural)]
pub enum Focus {
    Axes,
    Buttons,
}

/// The popup shown over the monitor, if any.
#[derive(Clone, Copy, Debug, PartialEq, Eq, Structural)]
pub enum ActivePopup {
    Closed,
    Info,
    Help,
}

/// Interactive state of the device monitor.
pub struct MonitorState {
    pub counts: Counts,
    pub info_lines: Vec<String>,
    pub active_popup: ActivePopup,
    pub focus: Focus,
    pub axis_scroll: usize,
    pub button_row_scroll: usize,
    pub joystick_invert_y: bool,
}

pub open spec fn spec_initial_focus(counts: Counts, startup_focus: StartupFocus) -> Focus {
    match startup_focus {
        StartupFocus::Auto => if counts.spec_total_axes() > 0 { Focus::Axes } else { Focus::Buttons },
        StartupFocus::Axes => Focus::Axes,
        StartupFocus::Buttons => Focus::Buttons,
    }
}

/// The section focused at startup.
pub fn initial_focus(counts: Counts, startup_focus: StartupFocus) -> (f: Focus)
    ensures
        f == spec_initial_focus(counts, startup_focus),
{
    match startup_focus {
        StartupFocus::Auto => {
            if counts.abs > 0 || counts.rel > 0 {
                Focus::Axes
            } else {
                Focus::Buttons
            }
        },
        StartupFocus::Axes => Focus::Axes,
        StartupFocus::Buttons => Focus::Buttons,
    }
}

pub open spec fn spec_toggled_popup(current: ActivePopup, target: ActivePopup) -> ActivePopup {
    if current == target { ActivePopup::Closed } else { target }
}

/// Opening a popup that is already open closes it; opening another one
/// replaces whatever is shown.
pub fn toggled_popup(current: ActivePopup, target: ActivePopup) -> (p: ActivePopup)
    ensures
        p == spec_toggled_popup(current, target),
{
    if current == target {
        ActivePopup::Closed
    } else {
        target
    }
}

pub open spec fn spec_next_focus(current: Focus, focusable: bool) -> Focus {
    if !focusable {
        current
    } else {
        match current {
            Focus::Axes => Focus::Buttons,
            Focus::Buttons => Focus::Axes,
        }
    }
}

/// The other section when both are focusable; otherwise the focus stays.
pub fn next_focus(current: Focus, focusable: bool) -> (f: Focus)
    ensures
        f == spec_next_focus(current, focusable),
{
    if !focusable {
        return current;
    }
    match current {
        Focus::Axes => Focus::Buttons,
        Focus::Buttons => Focus::Axes,
    }
}

pub open spec fn spec_step_offset(current: int, direction: int, overflow: bool, max: int) -> int {
    if !overflow {
        current
    } else if direction < 0 {
        if current > 0 { current - 1 } else { 0 }
    } else if direction > 0 {
        if current + 1 < max { current + 1 } else { max }
    } else {
        current
    }
}

/// One scroll step: back or forward by one, within `[0, max]`; no movement
/// when the section does not overflow its area.
pub fn step_offset(current: usize, direction: i32, overflow: bool, max: usize) -> (r: usize)
    requires
        !(overflow && direction > 0 && current == usize::MAX),
    ensures
        r == spec_step_offset(current as int, direction as int, overflow, max as int),
{
    if !overflow {
        return current;
    }
    if direction < 0 {
        current.saturating_sub(1)
    } else if direction > 0 {
        let next = current + 1;
        if next < max { next } else { max }
    } else {
        current
    }
}

/// Where `steps` scroll steps in `direction` lead from `current`.
pub open spec fn spec_page_offset(current: int, direction: int, overflow: bool, max: int, steps: int) -> int {
    if !overflow || direction == 0 || steps == 0 {
        current
    } else if direction < 0 {
        if current > steps { current - steps } else { 0 }
    } else {
        if current + steps < max { current + steps } else { max }
    }
}

/// Where `steps` single scroll steps in `direction` lead from `current`,
/// one after the other.
pub open spec fn spec_repeated_steps(current: int, direction: int, overflow: bool, max: int, steps: nat) -> int
    decreases steps,
{
    if steps == 0 {
        current
    } else {
        spec_step_offset(spec_repeated_steps(current, direction, overflow, max, (steps - 1) as nat), direction, overflow, max)
    }
}

/// `s` with the scroll position of the section `focus` names set to `offset`.
pub open spec fn with_focused_offset(s: MonitorState, focus: Focus, offset: int) -> MonitorState {
    match focus {
        Focus::Axes => MonitorState { axis_scroll: offset as usize, ..s },
        Focus::Buttons => MonitorState { button_row_scroll: offset as usize, ..s },
    }
}

/// The monitor state after a page of `steps` scroll steps in `direction` of
/// the section focused in `navigation`.
pub open spec fn spec_scrolled(s: MonitorState, navigation: NavigationContext, direction: int, steps: nat) -> MonitorState {
    with_focused_offset(
        s,
        navigation.focus,
        spec_page_offset(s.focused_offset(navigation.focus) as int, direction, overflow_of(navigation),
            max_of(navigation) as int, steps as int),
    )
}

/// The monitor state after `n` single scroll steps, taken one after the other.
pub open spec fn spec_scroll_steps(s: MonitorState, navigation: NavigationContext, direction: int, n: nat) -> MonitorState
    decreases n,
{
    if n == 0 {
        s
    } else {
        spec_scrolled(spec_scroll_steps(s, navigation, direction, (n - 1) as nat), navigation, direction, 1)
    }
}

/// Scroll positions as the navigation commands move them.
#[derive(Clone, Copy, Debug, PartialEq, Eq, Structural)]
pub struct ScrollCursor {
    pub axis: usize,
    pub button_row: usize,
}

/// Scroll limits taken from the last rendered frame.
#[derive(Clone, Copy, Debug, PartialEq, Eq, Structural)]
pub struct ScrollLimits {
    pub axes_max: usize,
    pub button_row_max_start: usize,
    pub axes_overflow: bool,
    pub buttons_overflow: bool,
}

impl ScrollLimits {
    pub fn from_navigation(navigation: NavigationContext) -> (l: Self)
        ensures
            l.axes_max == navigation.scroll_bounds.axes_max,
            l.button_row_max_start == navigation.scroll_bounds.button_row_max_start,
            l.axes_overflow == navigation.scroll_bounds.axes_overflow,
            l.buttons_overflow == navigation.scroll_bounds.buttons_overflow,
    {
        let scroll_bounds = navigation.scroll_bounds();
        Self {
            axes_max: scroll_bounds.axes_max,
            button_row_max_start: scroll_bounds.button_row_max_start,
            axes_overflow: scroll_bounds.axes_overflow,
            buttons_overflow: scroll_bounds.buttons_overflow,
        }
    }
}

impl ScrollCursor {
    pub fn from_state(state: &MonitorState) -> (c: Self)
        ensures
            c == (ScrollCursor { axis: state.axis_scroll, button_row: state.button_row_scroll }),
    {
        Self { axis: state.axis_scroll, button_row: state.button_row_scroll }
    }

    pub fn from_navigation(navigation: NavigationContext) -> (c: Self)
        ensures
            c == (ScrollCursor {
                axis: navigation.scroll.axis,
                button_row: navigation.scroll.button_row,
            }),
    {
        Self { axis: navigation.scroll().axis, button_row: navigation.scroll().button_row }
    }

    /// Writes the positions back into the monitor state.
    pub fn apply(self, state: &mut MonitorState)
        ensures
            final(state).axis_scroll == self.axis,
            final(state).button_row_scroll == self.button_row,
            final(state).counts == old(state).counts,
            final(state).info_lines == old(state).info_lines,
            final(state).active_popup == old(state).active_popup,
            final(state).focus == old(state).focus,
            final(state).joystick_invert_y == old(state).joystick_invert_y,
    {
        state.axis_scroll = self.axis;
        state.button_row_scroll = self.button_row;
    }

    pub open spec fn spec_step(self, focus: Focus, direction: int, limits: ScrollLimits) -> ScrollCursor {
        match focus {
            Focus::Axes => ScrollCursor {
                axis: spec_step_offset(self.axis as int, direction, limits.axes_overflow, limits.axes_max as int) as usize,
                ..self
            },
            Focus::Buttons => ScrollCursor {
                button_row: spec_step_offset(
                    self.button_row as int,
                    direction,
                    limits.buttons_overflow,
                    limits.button_row_max_start as int,
                ) as usize,
                ..self
            },
        }
    }

    /// A step precondition: moving forward cannot overflow the focused position.
    pub open spec fn can_step(self, focus: Focus, direction: int, limits: ScrollLimits) -> bool {
        match focus {
            Focus::Axes => !(limits.axes_overflow && direction > 0 && self.axis == usize::MAX),
            Focus::Buttons => !(limits.buttons_overflow && direction > 0 && self.button_row == usize::MAX),
        }
    }

    /// One step of the focused section; the other section keeps its position.
    pub fn step(self, focus: Focus, direction: i32, limits: ScrollLimits) -> (c: Self)
        requires
            self.can_step(focus, direction as int, limits),
        ensures
            c == (if direction == 0 { self } else { self.spec_step(focus, direction as int, limits) }),
    {
        if direction == 0 {
            return self;
        }
        match focus {
            Focus::Axes => Self {
                axis: step_offset(self.axis, direction, limits.axes_overflow, limits.axes_max),
                ..self
            },
            Focus::Buttons => Self {
                button_row: step_offset(
                    self.button_row,
                    direction,
                    limits.buttons_overflow,
                    limits.button_row_max_start,
                ),
                ..self
            },
        }
    }

    /// The focused section scrolled to its start.
    pub fn home(self, focus: Focus) -> (c: Self)
        ensures
            c == (match focus {
                Focus::Axes => ScrollCursor { axis: 0, ..self },
                Focus::Buttons => ScrollCursor { button_row: 0, ..self },
            }),
    {
        match focus {
            Focus::Axes => Self { axis: 0, ..self },
            Focus::Buttons => Self { button_row: 0, ..self },
        }
    }

    /// The focused section scrolled to its last position.
    pub fn end(self, focus: Focus, limits: ScrollLimits) -> (c: Self)
        ensures
            c == (match focus {
                Focus::Axes => ScrollCursor { axis: limits.axes_max, ..self },
                Focus::Buttons => ScrollCursor { button_row: limits.button_row_max_start, ..self },
            }),
    {
        match focus {
            Focus::Axes => Self { axis: limits.axes_max, ..self },
            Focus::Buttons => Self { button_row: limits.button_row_max_start, ..self },
        }
    }
}

impl MonitorState {
    /// A fresh monitor: no popup, scrolled to the top, focus as configured.
    pub fn new(
        counts: Counts,
        info_lines: Vec<String>,
        startup_focus: StartupFocus,
        joystick_invert_y: bool,
    ) -> (s: Self)
        ensures
            s.counts == counts,
            s.info_lines == info_lines,
            s.active_popup == ActivePopup::Closed,
            s.focus == spec_initial_focus(counts, startup_focus),
            s.axis_scroll == 0,
            s.button_row_scroll == 0,
            s.joystick_invert_y == joystick_invert_y,
    {
        let focus = initial_focus(counts, startup_focus);
        Self {
            counts,
            info_lines,
            active_popup: ActivePopup::Closed,
            focus,
            axis_scroll: 0,
            button_row_scroll: 0,
            joystick_invert_y,
        }
    }

    pub fn counts(&self) -> (c: Counts)
        ensures
            c == self.counts,
    {
        self.counts
    }

    pub fn info_lines(&self) -> (l: &[String])
        ensures
            l@ == self.info_lines@,
    {
        self.info_lines.as_slice()
    }

    pub fn joystick_invert_y(&self) -> (b: bool)
        ensures
            b == self.joystick_invert_y,
    {
        self.joystick_invert_y
    }

    /// Everything of the state but the fields `f` names stays as it was.
    pub open spec fn same_except(self, other: Self, popup: bool, focus: bool, scroll: bool, invert: bool) -> bool {
        &&& self.counts == other.counts
        &&& self.info_lines == other.info_lines
        &&& (!popup ==> self.active_popup == other.active_popup)
        &&& (!focus ==> self.focus == other.focus)
        &&& (!scroll ==> self.axis_scroll == other.axis_scroll && self.button_row_scroll == other.button_row_scroll)
        &&& (!invert ==> self.joystick_invert_y == other.joystick_invert_y)
    }

    pub fn toggle_invert_y(&mut self)
        ensures
            final(self).joystick_invert_y == !old(self).joystick_invert_y,
            final(self).same_except(*old(self), false, false, false, true),
    {
        self.joystick_invert_y = !self.joystick_invert_y;
    }

    pub fn active_popup(&self) -> (p: ActivePopup)
        ensures
            p == self.active_popup,
    {
        self.active_popup
    }

    pub fn focus(&self) -> (f: Focus)
        ensures
            f == self.focus,
    {
        self.focus
    }

    /// Moves focus to the other section of the rendered frame, when both are
    /// focusable.
    pub fn focus_next(&mut self, navigation: NavigationContext)
        ensures
            final(self).focus == spec_next_focus(navigation.focus, navigation.focusable),
            final(self).same_except(*old(self), false, true, false, false),
    {
        self.focus = next_focus(navigation.focus(), navigation.focusable());
    }

    /// With two sections, the previous one is the next one.
    pub fn focus_prev(&mut self, navigation: NavigationContext)
        ensures
            final(self).focus == spec_next_focus(navigation.focus, navigation.focusable),
            final(self).same_except(*old(self), false, true, false, false),
    {
        self.focus_next(navigation);
    }

    pub fn toggle_info(&mut self)
        ensures
            final(self).active_popup == spec_toggled_popup(old(self).active_popup, ActivePopup::Info),
            final(self).same_except(*old(self), true, false, false, false),
    {
        self.active_popup = toggled_popup(self.active_popup, ActivePopup::Info);
    }

    pub fn toggle_help(&mut self)
        ensures
            final(self).active_popup == spec_toggled_popup(old(self).active_popup, ActivePopup::Help),
            final(self).same_except(*old(self), true, false, false, false),
    {
        self.active_popup = toggled_popup(self.active_popup, ActivePopup::Help);
    }

    pub fn axis_scroll(&self) -> (n: usize)
        ensures
            n == self.axis_scroll,
    {
        self.axis_scroll
    }

    pub fn button_row_scroll(&self) -> (n: usize)
        ensures
            n == self.button_row_scroll,
    {
        self.button_row_scroll
    }

    /// Adopts the focus and the clamped scroll positions of the rendered frame.
    pub fn sync_from_navigation(&mut self, navigation: NavigationContext)
        ensures
            final(self).focus == navigation.focus,
            final(self).axis_scroll == navigation.scroll.axis,
            final(self).button_row_scroll == navigation.scroll.button_row,
            final(self).same_except(*old(self), false, true, true, false),
    {
        self.focus = navigation.focus();
        ScrollCursor::from_navigation(navigation).apply(self);
    }

    /// Scrolling `steps` forward cannot overflow the focused position.
    pub open spec fn can_scroll(self, navigation: NavigationContext, direction: int, steps: int) -> bool {
        spec_can_page(self.focused_offset(navigation.focus), navigation, direction, steps)
    }

    /// The scroll position of the section that `focus` names.
    pub open spec fn focused_offset(self, focus: Focus) -> usize {
        match focus {
            Focus::Axes => self.axis_scroll,
            Focus::Buttons => self.button_row_scroll,
        }
    }

    /// One scroll step of the section focused in the rendered frame.
    pub fn scroll_by(&mut self, direction: i32, navigation: NavigationContext)
        requires
            old(self).can_scroll(navigation, direction as int, 1),
        ensures
            final(self).focused_offset(navigation.focus) == spec_page_offset(
                old(self).focused_offset(navigation.focus) as int,
                direction as int,
                overflow_of(navigation),
                max_of(navigation) as int,
                1,
            ),
            final(self).focused_offset(other_focus(navigation.focus)) == old(self).focused_offset(
                other_focus(navigation.focus),
            ),
            final(self).same_except(*old(self), false, false, true, false),
            *final(self) == spec_scrolled(*old(self), navigation, direction as int, 1),
    {
        let cursor = ScrollCursor::from_state(self).step(
            navigation.focus(),
            direction,
            ScrollLimits::from_navigation(navigation),
        );
        cursor.apply(self);
    }

    /// `steps` scroll steps of the section focused in the rendered frame.
    pub fn scroll_page(&mut self, direction: i32, navigation: NavigationContext, steps: usize)
        requires
            old(self).can_scroll(navigation, direction as int, steps as int),
        ensures
            final(self).focused_offset(navigation.focus) == spec_page_offset(
                old(self).focused_offset(navigation.focus) as int,
                direction as int,
                overflow_of(navigation),
                max_of(navigation) as int,
                steps as int,
            ),
            final(self).focused_offset(navigation.focus) == spec_repeated_steps(
                old(self).focused_offset(navigation.focus) as int,
                direction as int,
                overflow_of(navigation),
                max_of(navigation) as int,
                steps as nat,
            ),
            final(self).focused_offset(other_focus(navigation.focus)) == old(self).focused_offset(
                other_focus(navigation.focus),
            ),
            final(self).same_except(*old(self), false, false, true, false),
            *final(self) == spec_scrolled(*old(self), navigation, direction as int, steps as nat),
    {
        proof {
            law_page_equals_repeated_steps(
                old(self).focused_offset(navigation.focus) as int,
                direction as int,
                overflow_of(navigation),
                max_of(navigation) as int,
                steps as nat,
            );
        }
        if direction == 0 {
            return;
        }
        let limits = ScrollLimits::from_navigation(navigation);
        let focus = navigation.focus();
        let mut cursor = ScrollCursor::from_state(self);
        let ghost start = cursor;
        let ghost start_offset = old(self).focused_offset(navigation.focus);
        let mut i: usize = 0;
        while i < steps
            invariant
                i <= steps,
                direction != 0,
                focus == navigation.focus,
                limits.axes_max == navigation.scroll_bounds.axes_max,
                limits.button_row_max_start == navigation.scroll_bounds.button_row_max_start,
                limits.axes_overflow == navigation.scroll_bounds.axes_overflow,
                limits.buttons_overflow == navigation.scroll_bounds.buttons_overflow,
                focus == Focus::Axes ==> cursor.button_row == start.button_row
                    && cursor.axis as int == spec_page_offset(start.axis as int, direction as int,
                        limits.axes_overflow, limits.axes_max as int, i as int),
                focus == Focus::Buttons ==> cursor.axis == start.axis
                    && cursor.button_row as int == spec_page_offset(start.button_row as int,
                        direction as int, limits.buttons_overflow,
                        limits.button_row_max_start as int, i as int),
                spec_can_page(start_offset, navigation, direction as int, steps as int),
                start_offset == old(self).focused_offset(navigation.focus),
                start_offset == (match focus {
                    Focus::Axes => start.axis,
                    Focus::Buttons => start.button_row,
                }),
            decreases steps - i,
        {
            cursor = cursor.step(focus, direction, limits);
            i = i + 1;
        }
        cursor.apply(self);
    }

    /// Scrolls the focused section to its start.
    pub fn scroll_home(&mut self, navigation: NavigationContext)
        ensures
            final(self).focused_offset(navigation.focus) == 0,
            final(self).focused_offset(other_focus(navigation.focus)) == old(self).focused_offset(
                other_focus(navigation.focus),
            ),
            final(self).same_except(*old(self), false, false, true, false),
    {
        ScrollCursor::from_state(self).home(navigation.focus()).apply(self);
    }

    /// Scrolls the focused section to its last position.
    pub fn scroll_end(&mut self, navigation: NavigationContext)
        ensures
            final(self).focused_offset(navigation.focus) == max_of(navigation),
            final(self).focused_offset(other_focus(navigation.focus)) == old(self).focused_offset(
                other_focus(navigation.focus),
            ),
            final(self).same_except(*old(self), false, false, true, false),
    {
        ScrollCursor::from_state(self).end(
            navigation.focus(),
            ScrollLimits::from_navigation(navigation),
        ).apply(self);
    }
}

/// The forward steps of a page from `offset` stay within `usize`: the
/// position itself never passes the section's maximum, so only a maximum of
/// `usize::MAX` can be exceeded.
pub open spec fn spec_can_page(offset: usize, navigation: NavigationContext, direction: int, steps: int) -> bool {
    overflow_of(navigation) && direction > 0 && steps > 0 ==> {
        &&& offset < usize::MAX
        &&& (max_of(navigation) == usize::MAX ==> offset + steps <= usize::MAX)
    }
}

pub open spec fn other_focus(focus: Focus) -> Focus {
    match focus {
        Focus::Axes => Focus::Buttons,
        Focus::Buttons => Focus::Axes,
    }
}

/// Whether the focused section of the frame overflows its area.
pub open spec fn overflow_of(navigation: NavigationContext) -> bool {
    match navigation.focus {
        Focus::Axes => navigation.scroll_bounds.axes_overflow,
        Focus::Buttons => navigation.scroll_bounds.buttons_overflow,
    }
}

/// The last scroll position of the focused section of the frame.
pub open spec fn max_of(navigation: NavigationContext) -> usize {
    match navigation.focus {
        Focus::Axes => navigation.scroll_bounds.axes_max,
        Focus::Buttons => navigation.scroll_bounds.button_row_max_start,
    }
}

/// Toggling a popup twice closes it, unless it was the popup already open,
/// which the second toggle opens again.
pub proof fn law_popup_toggle_twice(current: ActivePopup, target: ActivePopup)
    requires
        target != ActivePopup::Closed,
    ensures
        spec_toggled_popup(spec_toggled_popup(current, target), target) == (if current == target {
            target
        } else {
            ActivePopup::Closed
        }),
{
}

/// Opening one popup while the other is open replaces it.
pub proof fn law_popups_replace_each_other(current: ActivePopup, target: ActivePopup)
    requires
        target != ActivePopup::Closed,
        current != target,
    ensures
        spec_toggled_popup(current, target) == target,
{
}

/// Moving focus twice returns it to where it was; it moves only when both
/// sections are focusable, and then always to the other one.
pub proof fn law_focus_cycle(current: Focus, focusable: bool)
    ensures
        spec_next_focus(spec_next_focus(current, focusable), focusable) == current,
        !focusable ==> spec_next_focus(current, focusable) == current,
        focusable ==> spec_next_focus(current, focusable) == other_focus(current),
{
}

/// A page of `steps` scroll steps lands where that many single steps lead.
pub proof fn law_page_is_repeated_steps(current: int, direction: int, overflow: bool, max: int, steps: int)
    requires
        steps >= 0,
        direction != 0,
    ensures
        spec_page_offset(current, direction, overflow, max, steps + 1) == spec_step_offset(
            spec_page_offset(current, direction, overflow, max, steps),
            direction,
            overflow,
            max,
        ),
{
}

/// A page of `steps` scroll steps lands exactly where that many single
/// steps, taken one after the other, lead; with no direction it stays put.
pub proof fn law_page_equals_repeated_steps(current: int, direction: int, overflow: bool, max: int, steps: nat)
    ensures
        spec_page_offset(current, direction, overflow, max, steps as int) == spec_repeated_steps(
            current,
            direction,
            overflow,
            max,
            steps,
        ),
    decreases steps,
{
    if steps > 0 {
        law_page_equals_repeated_steps(current, direction, overflow, max, (steps - 1) as nat);
        if direction != 0 {
            law_page_is_repeated_steps(current, direction, overflow, max, steps - 1);
        }
    }
}

/// A page of `steps` scroll steps leaves the monitor exactly as `steps`
/// single scroll steps, one after the other, do; without a direction it
/// changes nothing. Only the focused section's position ever moves.
pub proof fn law_page_is_repeated_scroll_by(
    s: MonitorState,
    navigation: NavigationContext,
    direction: int,
    steps: nat,
)
    ensures
        spec_scrolled(s, navigation, direction, steps) == spec_scroll_steps(s, navigation, direction, steps),
        direction == 0 ==> spec_scrolled(s, navigation, direction, steps) == s,
        spec_scrolled(s, navigation, direction, steps).same_except(s, false, false, true, false),
        spec_scrolled(s, navigation, direction, steps).focused_offset(other_focus(navigation.focus))
            == s.focused_offset(other_focus(navigation.focus)),
    decreases steps,
{
    let c = s.focused_offset(navigation.focus) as int;
    let m = max_of(navigation) as int;
    let o = overflow_of(navigation);
    lemma_page_in_range(c, direction, o, m, steps as int);
    if steps > 0 {
        law_page_is_repeated_scroll_by(s, navigation, direction, (steps - 1) as nat);
        lemma_page_in_range(c, direction, o, m, steps - 1);
        if direction != 0 {
            law_page_is_repeated_steps(c, direction, o, m, steps - 1);
        }
        let prev = spec_scrolled(s, navigation, direction, (steps - 1) as nat);
        assert(prev.focused_offset(navigation.focus) as int == spec_page_offset(c, direction, o, m, steps - 1));
        assert(spec_scrolled(prev, navigation, direction, 1) == spec_scrolled(s, navigation, direction, steps));
    }
}

/// A page from a position in `usize` stays in `usize`.
proof fn lemma_page_in_range(current: int, direction: int, overflow: bool, max: int, steps: int)
    requires
        0 <= current <= usize::MAX,
        0 <= max <= usize::MAX,
        steps >= 0,
    ensures
        0 <= spec_page_offset(current, direction, overflow, max, steps) <= usize::MAX,
{
}

/// Scrolling keeps a position that starts within `[0, max]` there, and a
/// section that does not overflow never scrolls.
pub proof fn law_scroll_stays_in_bounds(current: int, direction: int, overflow: bool, max: int, steps: int)
    requires
        0 <= current <= max,
        steps >= 0,
    ensures
        0 <= spec_page_offset(current, direction, overflow, max, steps) <= max,
        !overflow ==> spec_page_offset(current, direction, overflow, max, steps) == current,
{
}

} // verus!
