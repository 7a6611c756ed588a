use vstd::prelude::*;

use crate::monitor::config;
use crate::rect::Rect;

verus! {

/// Boxes that `box_layout` places, top to bottom: joystick and d-pad share the
/// top row, then the touchpad, the axes box and the buttons box.
pub struct BoxLayout {
    pub joystick_box: Option<Rect>,
    pub hat_box: Option<Rect>,
    pub axes_box: Option<Rect>,
    pub touch_box: Option<Rect>,
    pub buttons_box: Option<Rect>,
}

/// A joystick panel showing `columns` sticks side by side.
#[derive(Clone, Copy)]
pub struct JoystickPanel {
    pub columns: usize,
}

impl JoystickPanel {
    pub fn new(columns: usize) -> (p: Self)
        ensures
            p.columns == columns,
    {
        Self { columns }
    }
}

#[derive(Clone, Copy)]
pub struct HatPanel;

impl HatPanel {
    pub fn new() -> Self {
        Self
    }
}

#[derive(Clone, Copy)]
pub struct TouchPanel;

impl TouchPanel {
    pub fn new() -> Self {
        Self
    }
}

#[derive(Clone, Copy)]
pub struct AxesPanel;

impl AxesPanel {
    pub fn new() -> Self {
        Self
    }
}

#[derive(Clone, Copy)]
pub struct ButtonsPanel;

impl ButtonsPanel {
    pub fn new() -> Self {
        Self
    }
}

/// The panels that should be laid out, each present or absent.
#[derive(Clone, Copy)]
pub struct LayoutRequest {
    pub joystick: Option<JoystickPanel>,
    pub hat: Option<HatPanel>,
    pub touch: Option<TouchPanel>,
    pub axes: Option<AxesPanel>,
    pub buttons: Option<ButtonsPanel>,
}

impl LayoutRequest {
    pub fn new(
        joystick: Option<JoystickPanel>,
        hat: Option<HatPanel>,
        touch: Option<TouchPanel>,
        axes: Option<AxesPanel>,
        buttons: Option<ButtonsPanel>,
    ) -> (r: Self)
        ensures
            r.joystick == joystick,
            r.hat == hat,
            r.touch == touch,
            r.axes == axes,
            r.buttons == buttons,
    {
        Self { joystick, hat, touch, axes, buttons }
    }

    pub fn top_row_request(self) -> (r: TopRowRequest)
        ensures
            r == TopRowRequest::spec_new(self.joystick is Some, self.hat is Some),
    {
        TopRowRequest::new(self.joystick, self.hat)
    }

    pub open spec fn spec_joystick_columns(self) -> usize {
        match self.joystick {
            Some(panel) => panel.columns,
            None => 0,
        }
    }

    pub fn joystick_columns(self) -> (c: usize)
        ensures
            c == self.spec_joystick_columns(),
    {
        match self.joystick {
            Some(panel) => panel.columns,
            None => 0,
        }
    }

    pub fn has_joystick(self) -> (b: bool)
        ensures
            b == self.joystick is Some,
    {
        self.joystick.is_some()
    }

    pub fn has_hat(self) -> (b: bool)
        ensures
            b == self.hat is Some,
    {
        self.hat.is_some()
    }

    pub fn has_touch(self) -> (b: bool)
        ensures
            b == self.touch is Some,
    {
        self.touch.is_some()
    }

    pub fn has_axes(self) -> (b: bool)
        ensures
            b == self.axes is Some,
    {
        self.axes.is_some()
    }

    pub fn has_buttons(self) -> (b: bool)
        ensures
            b == self.buttons is Some,
    {
        self.buttons.is_some()
    }
}

/// Minimum heights of the requested boxes; zero for an absent box.
#[derive(Clone, Copy)]
pub struct BoxMinimums {
    pub axes: u16,
    pub buttons: u16,
    pub touch: u16,
    pub joystick: u16,
    pub hat: u16,
}

pub open spec fn spec_min_box_height(present: bool, height: u16) -> u16 {
    if present { height } else { 0 }
}

/// `height` when the box is present, zero otherwise.
pub fn min_box_height(present: bool, height: u16) -> (h: u16)
    ensures
        h == spec_min_box_height(present, height),
{
    if present { height } else { 0 }
}

impl BoxMinimums {
    pub open spec fn spec_for_request(request: LayoutRequest) -> BoxMinimums {
        BoxMinimums {
            axes: spec_min_box_height(request.axes is Some, 2),
            buttons: spec_min_box_height(request.buttons is Some, 1),
            touch: spec_min_box_height(request.touch is Some, (config::TOUCHPAD_MIN_HEIGHT + 2) as u16),
            joystick: spec_min_box_height(request.joystick is Some, config::JOYSTICK_MIN_SIZE),
            hat: spec_min_box_height(request.hat is Some, config::HAT_MIN_SIZE),
        }
    }

    /// Axes need two rows (border), buttons one, the touchpad its minimum plus
    /// a border, joystick and d-pad their minimum sizes.
    pub fn for_request(request: LayoutRequest) -> (m: Self)
        ensures
            m == Self::spec_for_request(request),
    {
        Self {
            axes: min_box_height(request.has_axes(), 2),
            buttons: min_box_height(request.has_buttons(), 1),
            touch: min_box_height(request.has_touch(), config::TOUCHPAD_MIN_HEIGHT + 2),
            joystick: min_box_height(request.has_joystick(), config::JOYSTICK_MIN_SIZE),
            hat: min_box_height(request.has_hat(), config::HAT_MIN_SIZE),
        }
    }

    /// The minimums are small enough that their sums cannot overflow.
    pub open spec fn bounded(self) -> bool {
        self.axes + self.buttons + self.touch <= u16::MAX
    }

    pub fn reserved_below_top(self) -> (h: u16)
        requires
            self.bounded(),
        ensures
            h == self.axes + self.buttons + self.touch,
    {
        self.axes + self.buttons + self.touch
    }

    pub fn reserved_below_touch(self) -> (h: u16)
        requires
            self.bounded(),
        ensures
            h == self.axes + self.buttons,
    {
        self.axes + self.buttons
    }
}

/// Rows still free while boxes are placed top to bottom.
#[derive(Clone, Copy)]
pub struct LayoutBudget {
    pub remaining_height: u16,
}

impl LayoutBudget {
    pub fn new(total_height: u16) -> (b: Self)
        ensures
            b.remaining_height == total_height,
    {
        Self { remaining_height: total_height }
    }

    /// Takes `height` rows, or all that are left.
    pub fn reserve(&mut self, height: u16)
        ensures
            final(self).remaining_height == (if old(self).remaining_height >= height {
                old(self).remaining_height - height
            } else {
                0
            }),
    {
        self.remaining_height = self.remaining_height.saturating_sub(height);
    }

    pub fn remaining(self) -> (h: u16)
        ensures
            h == self.remaining_height,
    {
        self.remaining_height
    }
}

/// Whether the touchpad is shown, and with how many rows.
#[derive(Clone, Copy, Debug, PartialEq, Eq, Structural)]
pub struct TouchAllocation {
    pub visible: bool,
    pub height: u16,
}

impl TouchAllocation {
    pub fn hidden() -> (t: Self)
        ensures
            t == (TouchAllocation { visible: false, height: 0 }),
    {
        Self { visible: false, height: 0 }
    }

    pub fn shown(height: u16) -> (t: Self)
        ensures
            t == (TouchAllocation { visible: true, height }),
    {
        Self { visible: true, height }
    }

    pub fn is_visible(self) -> (b: bool)
        ensures
            b == self.visible,
    {
        self.visible
    }

    pub fn height(self) -> (h: u16)
        ensures
            h == self.height,
    {
        self.height
    }
}

/// Heights of the axes and buttons boxes below the top row and touchpad.
#[derive(Clone, Copy, PartialEq, Eq, Structural)]
pub struct LowerSectionLayout {
    pub axes_height: u16,
    pub buttons_height: u16,
}

pub open spec fn clamp_u16(v: int, lo: int, hi: int) -> int {
    if v < lo { lo } else if v > hi { hi } else { v }
}

/// `value` limited to `[lo, hi]`; `u16::clamp` panics when `lo > hi`.
pub fn clamp_u16_exec(value: u16, lo: u16, hi: u16) -> (r: u16)
    requires
        lo <= hi,
    ensures
        r == clamp_u16(value as int, lo as int, hi as int),
{
    if value < lo {
        lo
    } else if value > hi {
        hi
    } else {
        value
    }
}

impl LowerSectionLayout {
    /// Whether the share of the axes can be computed in 16 bits where it is
    /// needed: when both boxes are requested and both minimums fit.
    pub open spec fn split_fits(remaining: u16, request: LayoutRequest, minimums: BoxMinimums, axes_box_percent: u16) -> bool {
        (request.axes is Some && request.buttons is Some && remaining >= minimums.axes + minimums.buttons)
            ==> remaining * axes_box_percent <= u16::MAX
    }

    pub open spec fn spec_plan(
        remaining: u16,
        request: LayoutRequest,
        minimums: BoxMinimums,
        axes_box_percent: u16,
    ) -> LowerSectionLayout {
        let none = LowerSectionLayout { axes_height: 0, buttons_height: 0 };
        match (request.axes is Some, request.buttons is Some) {
            (true, true) => if remaining < minimums.axes + minimums.buttons {
                if remaining >= minimums.buttons {
                    LowerSectionLayout { axes_height: 0, buttons_height: remaining }
                } else {
                    none
                }
            } else {
                let desired = (remaining * axes_box_percent) / 100;
                let max_axes = remaining - minimums.buttons;
                let axes = clamp_u16(desired, minimums.axes as int, max_axes);
                LowerSectionLayout {
                    axes_height: axes as u16,
                    buttons_height: (remaining - axes) as u16,
                }
            },
            (true, false) => if remaining >= minimums.axes {
                LowerSectionLayout { axes_height: remaining, buttons_height: 0 }
            } else {
                none
            },
            (false, true) => if remaining >= minimums.buttons {
                LowerSectionLayout { axes_height: 0, buttons_height: remaining }
            } else {
                none
            },
            (false, false) => none,
        }
    }

    /// Splits the rows left below the top row and touchpad between the axes
    /// and buttons boxes. When both cannot have their minimum, the buttons
    /// get the space; otherwise the axes get `axes_box_percent` of it,
    /// clamped so that both keep their minimum.
    pub fn plan(
        remaining_height: u16,
        request: LayoutRequest,
        minimums: BoxMinimums,
        axes_box_percent: u16,
    ) -> (l: Self)
        requires
            minimums.axes + minimums.buttons <= u16::MAX,
            Self::split_fits(remaining_height, request, minimums, axes_box_percent),
        ensures
            l == Self::spec_plan(remaining_height, request, minimums, axes_box_percent),
            l.axes_height + l.buttons_height <= remaining_height,
    {
        match (request.has_axes(), request.has_buttons()) {
            (true, true) => {
                if remaining_height < minimums.axes + minimums.buttons {
                    if remaining_height >= minimums.buttons {
                        Self { axes_height: 0, buttons_height: remaining_height }
                    } else {
                        Self { axes_height: 0, buttons_height: 0 }
                    }
                } else {
                    let desired_axes = (remaining_height * axes_box_percent) / 100;
                    let max_axes = remaining_height.saturating_sub(minimums.buttons);
                    let axes_height = clamp_u16_exec(desired_axes, minimums.axes, max_axes);
                    Self {
                        axes_height,
                        buttons_height: remaining_height.saturating_sub(axes_height),
                    }
                }
            },
            (true, false) => {
                if remaining_height >= minimums.axes {
                    Self { axes_height: remaining_height, buttons_height: 0 }
                } else {
                    Self { axes_height: 0, buttons_height: 0 }
                }
            },
            (false, true) => {
                if remaining_height >= minimums.buttons {
                    Self { axes_height: 0, buttons_height: remaining_height }
                } else {
                    Self { axes_height: 0, buttons_height: 0 }
                }
            },
            (false, false) => Self { axes_height: 0, buttons_height: 0 },
        }
    }

    pub fn axes_height(self) -> (h: u16)
        ensures
            h == self.axes_height,
    {
        self.axes_height
    }

    pub fn buttons_height(self) -> (h: u16)
        ensures
            h == self.buttons_height,
    {
        self.buttons_height
    }
}

/// Which of the two top-row widgets are requested.
#[derive(Clone, Copy, Debug, PartialEq, Eq, Structural)]
pub enum TopRowRequest {
    Neither,
    Joystick,
    Hat,
    Both,
}

impl TopRowRequest {
    pub open spec fn spec_new(joystick: bool, hat: bool) -> TopRowRequest {
        match (joystick, hat) {
            (true, true) => TopRowRequest::Both,
            (true, false) => TopRowRequest::Joystick,
            (false, true) => TopRowRequest::Hat,
            (false, false) => TopRowRequest::Neither,
        }
    }

    pub fn new(joystick: Option<JoystickPanel>, hat: Option<HatPanel>) -> (r: Self)
        ensures
            r == Self::spec_new(joystick is Some, hat is Some),
    {
        match (joystick, hat) {
            (Some(_), Some(_)) => Self::Both,
            (Some(_), None) => Self::Joystick,
            (None, Some(_)) => Self::Hat,
            (None, None) => Self::Neither,
        }
    }
}

/// What the top row shows: nothing, one widget across the full width, or
/// both side by side separated by `gap` cells.
#[derive(Clone, Copy, Debug, PartialEq, Eq, Structural)]
pub enum TopRowLayout {
    Empty,
    Joystick { height: u16 },
    Hat { height: u16 },
    Split { height: u16, gap: u16 },
}

impl TopRowLayout {
    pub open spec fn spec_height(self) -> u16 {
        match self {
            TopRowLayout::Empty => 0,
            TopRowLayout::Joystick { height } => height,
            TopRowLayout::Hat { height } => height,
            TopRowLayout::Split { height, .. } => height,
        }
    }

    pub fn height(self) -> (h: u16)
        ensures
            h == self.spec_height(),
    {
        match self {
            Self::Empty => 0,
            Self::Joystick { height } => height,
            Self::Hat { height } => height,
            Self::Split { height, .. } => height,
        }
    }
}

pub open spec fn spec_gap_if_room(total_width: u16, preferred_gap: u16) -> u16 {
    if total_width > preferred_gap * 2 { preferred_gap } else { 0 }
}

/// The preferred gap when the width holds more than two gaps, else none.
pub fn gap_if_room(total_width: u16, preferred_gap: u16) -> (g: u16)
    ensures
        g == spec_gap_if_room(total_width, preferred_gap),
{
    if (total_width as u32) > (preferred_gap as u32) * 2 {
        preferred_gap
    } else {
        0
    }
}

pub open spec fn spec_ratio_widths(width: u16, gap: u16, percent: u16) -> (u16, u16) {
    let avail: int = if width >= gap { width - gap } else { 0 };
    let left: int = avail * percent / 100;
    (left as u16, (avail - left) as u16)
}

/// Splits the width left after the gap: the left part gets `percent` of it,
/// the right part the rest.
pub fn ratio_widths(width: u16, gap: u16, percent: u16) -> (w: (u16, u16))
    requires
        percent <= 100,
    ensures
        w == spec_ratio_widths(width, gap, percent),
        w.0 + w.1 + (if width >= gap { gap as int } else { width as int }) == width,
{
    let avail = width.saturating_sub(gap);
    assert((avail as u32) * (percent as u32) <= 65535 * 100) by (nonlinear_arith)
        requires avail <= 65535, percent <= 100;
    let left_wide: u32 = (avail as u32) * (percent as u32) / 100;
    assert(left_wide <= avail) by (nonlinear_arith)
        requires left_wide == (avail as u32) * (percent as u32) / 100, percent <= 100;
    let left = left_wide as u16;
    (left, avail - left)
}

/// Places two boxes side by side on one row: the left one gets `percent` of
/// the width left after the gap.
pub fn split_row_ratio(
    x: u16,
    y: u16,
    width: u16,
    height: u16,
    gap: u16,
    percent: u16,
) -> (r: (Rect, Rect))
    requires
        percent <= 100,
    ensures
        ({
            let (lw, rw) = spec_ratio_widths(width, gap, percent);
            &&& r.0 == Rect::spec_new(x, y, lw, height)
            &&& r.1 == Rect::spec_new(
                (if x + lw + gap <= u16::MAX { x + lw + gap } else { u16::MAX as int }) as u16,
                y,
                rw,
                height,
            )
        }),
{
    let (left_width, right_width) = ratio_widths(width, gap, percent);
    let left = Rect::new(x, y, left_width, height);
    let right_x = x.saturating_add(left_width).saturating_add(gap);
    let right = Rect::new(right_x, y, right_width, height);
    (left, right)
}

pub open spec fn spec_bounded_square_height(
    width: u16,
    max_height: u16,
    min_height: u16,
    max_size: u16,
) -> Option<u16> {
    if width == 0 || max_height < min_height {
        None
    } else {
        let height_for_width = width / config::JOYSTICK_ASPECT_RATIO;
        let cap = if max_size < max_height { max_size } else { max_height };
        if cap < min_height {
            None
        } else {
            let preferred = if height_for_width < cap { height_for_width } else { cap };
            if preferred < min_height || preferred == 0 {
                None
            } else {
                Some(preferred as u16)
            }
        }
    }
}

/// Height of a box drawn at the joystick aspect ratio in `width` cells,
/// capped by `max_size` and `max_height`, or `None` when it would fall
/// below `min_height` or be empty.
pub fn bounded_square_height(width: u16, max_height: u16, min_height: u16, max_size: u16) -> (h:
    Option<u16>)
    ensures
        h == spec_bounded_square_height(width, max_height, min_height, max_size),
        h matches Some(v) ==> min_height <= v <= max_size && v <= max_height && v > 0,
{
    if width == 0 || max_height < min_height {
        return None;
    }
    let ratio = if config::JOYSTICK_ASPECT_RATIO > 1 { config::JOYSTICK_ASPECT_RATIO } else { 1 };
    let height_for_width = width / ratio;
    let max_size = if max_size < max_height { max_size } else { max_height };
    if max_size < min_height {
        return None;
    }
    let preferred = if height_for_width < max_size { height_for_width } else { max_size };
    if preferred < min_height || preferred == 0 {
        return None;
    }
    Some(clamp_u16_exec(preferred, min_height, max_size))
}

/// Number of joystick columns as the layout divides by it: at least one,
/// truncated to 16 bits.
pub open spec fn column_divisor(columns: usize) -> u16 {
    (if columns > 1 { columns } else { 1 }) as u16
}

pub open spec fn spec_joystick_height_for_width(
    width: u16,
    max_height: u16,
    min_height: u16,
    columns: usize,
) -> Option<u16> {
    if width == 0 || max_height < min_height {
        None
    } else {
        let cols = column_divisor(columns);
        let gap: u16 = if cols > 1 { 2 } else { 0 };
        let avail: int = if width >= gap { width - gap } else { 0 };
        let width_per = (avail / (cols as int)) as u16;
        spec_bounded_square_height(width_per, max_height, min_height, config::JOYSTICK_MAX_SIZE)
    }
}

/// Height of the joystick box in `width` cells: each of the `columns` sticks
/// gets an equal share of the width left after the gap between them.
pub fn joystick_height_for_width(
    width: u16,
    max_height: u16,
    min_height: u16,
    columns: usize,
) -> (h: Option<u16>)
    requires
        column_divisor(columns) != 0,
    ensures
        h == spec_joystick_height_for_width(width, max_height, min_height, columns),
        h matches Some(v) ==> v <= max_height,
{
    if width == 0 || max_height < min_height {
        return None;
    }
    let columns = (if columns > 1 { columns } else { 1 }) as u16;
    let gap = if columns > 1 { config::joystick_gap() } else { 0 };
    let width_per = width.saturating_sub(gap) / columns;
    bounded_square_height(width_per, max_height, min_height, config::JOYSTICK_MAX_SIZE)
}

/// Height of the d-pad box in `width` cells.
pub fn hat_height_for_width(width: u16, max_height: u16, min_height: u16) -> (h: Option<u16>)
    ensures
        h == spec_bounded_square_height(width, max_height, min_height, config::HAT_MAX_SIZE),
        h matches Some(v) ==> v <= max_height,
{
    bounded_square_height(width, max_height, min_height, config::HAT_MAX_SIZE)
}

pub open spec fn spec_joystick_layout(
    width: u16,
    max_height: u16,
    min_height: u16,
    columns: usize,
) -> Option<TopRowLayout> {
    match spec_joystick_height_for_width(width, max_height, min_height, columns) {
        Some(height) => Some(TopRowLayout::Joystick { height }),
        None => None,
    }
}

pub open spec fn spec_hat_layout(width: u16, max_height: u16, min_height: u16) -> Option<
    TopRowLayout,
> {
    match spec_bounded_square_height(width, max_height, min_height, config::HAT_MAX_SIZE) {
        Some(height) => Some(TopRowLayout::Hat { height }),
        None => None,
    }
}

/// The joystick alone across the full width, if it fits.
pub fn joystick_layout(width: u16, max_height: u16, min_height: u16, columns: usize) -> (l: Option<
    TopRowLayout,
>)
    requires
        column_divisor(columns) != 0,
    ensures
        l == spec_joystick_layout(width, max_height, min_height, columns),
        l matches Some(t) ==> t.spec_height() <= max_height,
{
    match joystick_height_for_width(width, max_height, min_height, columns) {
        Some(height) => Some(TopRowLayout::Joystick { height }),
        None => None,
    }
}

/// The d-pad alone across the full width, if it fits.
pub fn hat_layout(width: u16, max_height: u16, min_height: u16) -> (l: Option<TopRowLayout>)
    ensures
        l == spec_hat_layout(width, max_height, min_height),
        l matches Some(t) ==> t.spec_height() <= max_height,
{
    match hat_height_for_width(width, max_height, min_height) {
        Some(height) => Some(TopRowLayout::Hat { height }),
        None => None,
    }
}

pub open spec fn spec_plan_dual_top_row(
    width: u16,
    max_top: u16,
    columns: usize,
    minimums: BoxMinimums,
    percent: u16,
) -> Option<TopRowLayout> {
    let gap = spec_gap_if_room(width, 2);
    let (jw, hw) = spec_ratio_widths(width, gap, percent);
    let joystick_fit = spec_joystick_height_for_width(jw, max_top, minimums.joystick, columns);
    let hat_fit = spec_bounded_square_height(hw, max_top, minimums.hat, config::HAT_MAX_SIZE);
    match (joystick_fit, hat_fit) {
        (Some(jh), Some(hh)) => Some(
            TopRowLayout::Split { height: if jh > hh { jh } else { hh }, gap },
        ),
        (Some(_), None) => spec_joystick_layout(width, max_top, minimums.joystick, columns),
        (None, Some(_)) => spec_hat_layout(width, max_top, minimums.hat),
        (None, None) => match spec_joystick_layout(width, max_top, minimums.joystick, columns) {
            Some(l) => Some(l),
            None => spec_hat_layout(width, max_top, minimums.hat),
        },
    }
}

/// Joystick and d-pad both requested: side by side when both fit their
/// share of the width; otherwise whichever fits alone, the joystick first.
pub fn plan_dual_top_row(
    width: u16,
    max_top: u16,
    joystick_columns: usize,
    minimums: BoxMinimums,
    joystick_hat_joystick_percent: u16,
) -> (l: Option<TopRowLayout>)
    requires
        column_divisor(joystick_columns) != 0,
        joystick_hat_joystick_percent <= 100,
    ensures
        l == spec_plan_dual_top_row(
            width,
            max_top,
            joystick_columns,
            minimums,
            joystick_hat_joystick_percent,
        ),
        l matches Some(t) ==> t.spec_height() <= max_top,
        l matches Some(TopRowLayout::Split { gap, .. }) ==> gap <= width,
{
    let gap = gap_if_room(width, config::joystick_gap());
    let (joystick_width, hat_width) = ratio_widths(width, gap, joystick_hat_joystick_percent);
    let joystick_fit = joystick_height_for_width(
        joystick_width,
        max_top,
        minimums.joystick,
        joystick_columns,
    );
    let hat_fit = hat_height_for_width(hat_width, max_top, minimums.hat);
    match (joystick_fit, hat_fit) {
        (Some(joystick_height), Some(hat_height)) => Some(
            TopRowLayout::Split {
                height: if joystick_height > hat_height { joystick_height } else { hat_height },
                gap,
            },
        ),
        (Some(_), None) => joystick_layout(width, max_top, minimums.joystick, joystick_columns),
        (None, Some(_)) => hat_layout(width, max_top, minimums.hat),
        (None, None) => match joystick_layout(width, max_top, minimums.joystick, joystick_columns) {
            Some(l) => Some(l),
            None => hat_layout(width, max_top, minimums.hat),
        },
    }
}

pub open spec fn unwrap_top(l: Option<TopRowLayout>) -> TopRowLayout {
    match l {
        Some(l) => l,
        None => TopRowLayout::Empty,
    }
}

pub open spec fn spec_plan_top_row(
    area: Rect,
    columns: usize,
    minimums: BoxMinimums,
    request: TopRowRequest,
    percent: u16,
) -> TopRowLayout {
    let reserved = minimums.axes + minimums.buttons + minimums.touch;
    let max_top = (if area.height >= reserved { area.height - reserved } else { 0 }) as u16;
    match request {
        TopRowRequest::Neither => TopRowLayout::Empty,
        TopRowRequest::Joystick => unwrap_top(
            spec_joystick_layout(area.width, max_top, minimums.joystick, columns),
        ),
        TopRowRequest::Hat => unwrap_top(spec_hat_layout(area.width, max_top, minimums.hat)),
        TopRowRequest::Both => unwrap_top(
            spec_plan_dual_top_row(area.width, max_top, columns, minimums, percent),
        ),
    }
}

/// Plans the top row within the height left after the minimums of the boxes
/// below it.
pub fn plan_top_row(
    area: Rect,
    joystick_columns: usize,
    minimums: BoxMinimums,
    request: TopRowRequest,
    joystick_hat_joystick_percent: u16,
) -> (l: TopRowLayout)
    requires
        minimums.bounded(),
        column_divisor(joystick_columns) != 0,
        joystick_hat_joystick_percent <= 100,
    ensures
        l == spec_plan_top_row(
            area,
            joystick_columns,
            minimums,
            request,
            joystick_hat_joystick_percent,
        ),
        l.spec_height() <= area.height,
        l matches TopRowLayout::Split { gap, .. } ==> gap <= area.width,
{
    let max_top = area.height.saturating_sub(minimums.reserved_below_top());
    match request {
        TopRowRequest::Neither => TopRowLayout::Empty,
        TopRowRequest::Joystick => match joystick_layout(
            area.width,
            max_top,
            minimums.joystick,
            joystick_columns,
        ) {
            Some(l) => l,
            None => TopRowLayout::Empty,
        },
        TopRowRequest::Hat => match hat_layout(area.width, max_top, minimums.hat) {
            Some(l) => l,
            None => TopRowLayout::Empty,
        },
        TopRowRequest::Both => match plan_dual_top_row(
            area.width,
            max_top,
            joystick_columns,
            minimums,
            joystick_hat_joystick_percent,
        ) {
            Some(l) => l,
            None => TopRowLayout::Empty,
        },
    }
}

pub open spec fn spec_place_top_row(area: Rect, cursor_y: u16, layout: TopRowLayout, percent: u16) -> (
    Option<Rect>,
    Option<Rect>,
) {
    if layout.spec_height() == 0 {
        (None, None)
    } else {
        match layout {
            TopRowLayout::Empty => (None, None),
            TopRowLayout::Joystick { height } => (
                Some(Rect::spec_new(area.x, cursor_y, area.width, height)),
                None,
            ),
            TopRowLayout::Hat { height } => (
                None,
                Some(Rect::spec_new(area.x, cursor_y, area.width, height)),
            ),
            TopRowLayout::Split { height, gap } => {
                let (lw, rw) = spec_ratio_widths(area.width, gap, percent);
                let right_x = if area.x + lw + gap <= u16::MAX {
                    area.x + lw + gap
                } else {
                    u16::MAX as int
                };
                (
                    Some(Rect::spec_new(area.x, cursor_y, lw, height)),
                    Some(Rect::spec_new(right_x as u16, cursor_y, rw, height)),
                )
            },
        }
    }
}

pub open spec fn sat_add_u16(a: u16, b: u16) -> u16 {
    (if a + b <= u16::MAX { a + b } else { u16::MAX as int }) as u16
}

/// Places the planned top row at `cursor_y` and moves the cursor below it.
pub fn place_top_row(
    area: Rect,
    cursor_y: &mut u16,
    layout: TopRowLayout,
    joystick_hat_joystick_percent: u16,
) -> (boxes: (Option<Rect>, Option<Rect>))
    requires
        joystick_hat_joystick_percent <= 100,
    ensures
        boxes == spec_place_top_row(area, *old(cursor_y), layout, joystick_hat_joystick_percent),
        *final(cursor_y) == sat_add_u16(*old(cursor_y), layout.spec_height()),
{
    let height = layout.height();
    if height == 0 {
        return (None, None);
    }
    let boxes = match layout {
        TopRowLayout::Empty => (None, None),
        TopRowLayout::Joystick { height } => (
            Some(Rect::new(area.x, *cursor_y, area.width, height)),
            None,
        ),
        TopRowLayout::Hat { height } => (
            None,
            Some(Rect::new(area.x, *cursor_y, area.width, height)),
        ),
        TopRowLayout::Split { height, gap } => {
            let (left, right) = split_row_ratio(
                area.x,
                *cursor_y,
                area.width,
                height,
                gap,
                joystick_hat_joystick_percent,
            );
            (Some(left), Some(right))
        },
    };
    *cursor_y = cursor_y.saturating_add(height);
    boxes
}

pub open spec fn spec_plan_touch(remaining_after_top: u16, request: LayoutRequest, minimums: BoxMinimums) -> TouchAllocation {
    let hidden = TouchAllocation { visible: false, height: 0 };
    if !(request.touch is Some) {
        hidden
    } else {
        let min_other = minimums.axes + minimums.buttons;
        if min_other == 0 {
            if remaining_after_top < minimums.touch {
                hidden
            } else {
                TouchAllocation { visible: true, height: remaining_after_top }
            }
        } else if remaining_after_top < min_other + minimums.touch {
            hidden
        } else {
            let preferred = config::TOUCHPAD_HEIGHT + 2;
            let max_touch = remaining_after_top - min_other;
            TouchAllocation {
                visible: true,
                height: clamp_u16(preferred, minimums.touch as int, max_touch) as u16,
            }
        }
    }
}

/// Sizes the touchpad: all the remaining rows when nothing else follows,
/// otherwise its preferred height as far as the boxes below keep their
/// minimums; hidden when even its minimum does not fit.
pub fn plan_touch(budget: LayoutBudget, request: LayoutRequest, minimums: BoxMinimums) -> (t:
    TouchAllocation)
    requires
        minimums.bounded(),
    ensures
        t == spec_plan_touch(budget.remaining_height, request, minimums),
        t.height <= budget.remaining_height,
        t.visible ==> t.height >= minimums.touch && request.touch is Some,
        !t.visible ==> t.height == 0,
{
    if !request.has_touch() {
        return TouchAllocation::hidden();
    }
    let remaining_after_top = budget.remaining();
    let min_other = minimums.reserved_below_touch();
    if min_other == 0 {
        return if remaining_after_top < minimums.touch {
            TouchAllocation::hidden()
        } else {
            TouchAllocation::shown(remaining_after_top)
        };
    }
    if remaining_after_top < min_other + minimums.touch {
        return TouchAllocation::hidden();
    }
    let preferred_touch = config::TOUCHPAD_HEIGHT + 2;
    let max_touch = remaining_after_top.saturating_sub(min_other);
    TouchAllocation::shown(clamp_u16_exec(preferred_touch, minimums.touch, max_touch))
}

pub open spec fn spec_take_next_box(area: Rect, cursor_y: u16, height: u16, min_height: u16) -> Option<Rect> {
    if height < min_height || height == 0 {
        None
    } else {
        Some(Rect::spec_new(area.x, cursor_y, area.width, height))
    }
}

/// The next box of `height` rows at the cursor, moving the cursor below it;
/// nothing when the height is below the box's minimum or zero.
pub fn take_next_box(area: Rect, cursor_y: &mut u16, height: u16, min_height: u16) -> (r: Option<Rect>)
    ensures
        r == spec_take_next_box(area, *old(cursor_y), height, min_height),
        *final(cursor_y) == (if r is Some { sat_add_u16(*old(cursor_y), height) } else { *old(cursor_y) }),
{
    if height < min_height || height == 0 {
        return None;
    }
    let rect = Rect::new(area.x, *cursor_y, area.width, height);
    *cursor_y = cursor_y.saturating_add(height);
    Some(rect)
}

/// Rows left for the axes and buttons once the top row and touchpad are placed.
pub open spec fn spec_lower_remaining(area: Rect, request: LayoutRequest) -> u16 {
    let minimums = BoxMinimums::spec_for_request(request);
    let top = spec_plan_top_row(area, request.spec_joystick_columns(), minimums,
        TopRowRequest::spec_new(request.joystick is Some, request.hat is Some), 70);
    let after_top = (if area.height >= top.spec_height() { area.height - top.spec_height() } else { 0 }) as u16;
    let touch = spec_plan_touch(after_top, request, minimums);
    (after_top - touch.height) as u16
}

/// Whether `box_layout` can split the rows below the top row and touchpad
/// between the axes and buttons in 16-bit arithmetic.
pub open spec fn layout_fits(area: Rect, request: LayoutRequest) -> bool {
    LowerSectionLayout::split_fits(spec_lower_remaining(area, request), request, BoxMinimums::spec_for_request(request), 60)
}

/// Rows left for the axes and buttons once the top row and touchpad are
/// placed, as `box_layout` computes them.
pub fn lower_remaining(area: Rect, request: LayoutRequest) -> (h: u16)
    requires
        column_divisor(request.spec_joystick_columns()) != 0,
    ensures
        h == spec_lower_remaining(area, request),
{
    let minimums = BoxMinimums::for_request(request);
    let top_row = plan_top_row(
        area,
        request.joystick_columns(),
        minimums,
        request.top_row_request(),
        config::joystick_hat_joystick_percent(),
    );
    let mut budget = LayoutBudget::new(area.height);
    budget.reserve(top_row.height());
    let touch = plan_touch(budget, request, minimums);
    budget.reserve(touch.height());
    budget.remaining()
}

/// Whether `box_layout` can take `area` and `request`: the test a caller
/// makes before laying out a frame.
pub fn layout_fits_check(area: Rect, request: LayoutRequest) -> (b: bool)
    requires
        column_divisor(request.spec_joystick_columns()) != 0,
    ensures
        b == layout_fits(area, request),
{
    let remaining = lower_remaining(area, request);
    let minimums = BoxMinimums::for_request(request);
    if request.has_axes() && request.has_buttons() && remaining >= minimums.axes + minimums.buttons {
        let percent = config::axes_box_percent();
        assert((remaining as u32) * (percent as u32) <= 65535 * 60) by (nonlinear_arith)
            requires
                percent == 60,
        ;
        (remaining as u32) * (percent as u32) <= u16::MAX as u32
    } else {
        true
    }
}

/// The boxes `box_layout` returns, composed from the planning steps.
pub open spec fn spec_box_layout(area: Rect, request: LayoutRequest) -> BoxLayout {
    let minimums = BoxMinimums::spec_for_request(request);
    let top = spec_plan_top_row(area, request.spec_joystick_columns(), minimums,
        TopRowRequest::spec_new(request.joystick is Some, request.hat is Some), 70);
    let after_top = (if area.height >= top.spec_height() { area.height - top.spec_height() } else { 0 }) as u16;
    let touch = spec_plan_touch(after_top, request, minimums);
    let lower = LowerSectionLayout::spec_plan((after_top - touch.height) as u16, request, minimums, 60);
    let (joystick_box, hat_box) = spec_place_top_row(area, area.y, top, 70);
    let y1 = sat_add_u16(area.y, top.spec_height());
    let touch_box = if touch.visible { spec_take_next_box(area, y1, touch.height, minimums.touch) } else { None };
    let y2 = if touch_box is Some { sat_add_u16(y1, touch.height) } else { y1 };
    let axes_box = spec_take_next_box(area, y2, lower.axes_height, minimums.axes);
    let y3 = if axes_box is Some { sat_add_u16(y2, lower.axes_height) } else { y2 };
    let buttons_box = spec_take_next_box(area, y3, lower.buttons_height, minimums.buttons);
    BoxLayout { joystick_box, hat_box, axes_box, touch_box, buttons_box }
}

/// `a` ends at or above the row where `b` starts.
pub open spec fn above(a: Option<Rect>, b: Option<Rect>) -> bool {
    match (a, b) {
        (Some(ra), Some(rb)) => ra.y + ra.height <= rb.y,
        _ => true,
    }
}

pub open spec fn inside(area: Rect, b: Option<Rect>) -> bool {
    b matches Some(r) ==> area.contains_rect(r)
}

pub open spec fn at_least(b: Option<Rect>, min_height: u16) -> bool {
    b matches Some(r) ==> r.height >= min_height && r.height > 0
}

/// Lays out the requested boxes top to bottom within `area`: the top row,
/// then the touchpad, then the axes and buttons boxes.
#[verifier::rlimit(100)]
#[verifier::spinoff_prover]
pub fn box_layout(area: Rect, request: LayoutRequest) -> (l: BoxLayout)
    requires
        column_divisor(request.spec_joystick_columns()) != 0,
        layout_fits(area, request),
    ensures
        l == spec_box_layout(area, request),
        area.wf() ==> {
            &&& inside(area, l.joystick_box)
            &&& inside(area, l.hat_box)
            &&& inside(area, l.touch_box)
            &&& inside(area, l.axes_box)
            &&& inside(area, l.buttons_box)
        },
        area.wf() ==> {
            &&& above(l.joystick_box, l.touch_box)
            &&& above(l.joystick_box, l.axes_box)
            &&& above(l.joystick_box, l.buttons_box)
            &&& above(l.hat_box, l.touch_box)
            &&& above(l.hat_box, l.axes_box)
            &&& above(l.hat_box, l.buttons_box)
            &&& above(l.touch_box, l.axes_box)
            &&& above(l.touch_box, l.buttons_box)
            &&& above(l.axes_box, l.buttons_box)
        },
        area.wf() ==> {
            &&& at_least(l.touch_box, (config::TOUCHPAD_MIN_HEIGHT + 2) as u16)
            &&& at_least(l.axes_box, 2)
            &&& at_least(l.buttons_box, 1)
        },
        l.joystick_box is Some ==> request.joystick is Some,
        l.hat_box is Some ==> request.hat is Some,
        l.touch_box is Some ==> request.touch is Some,
        l.axes_box is Some ==> request.axes is Some,
        l.buttons_box is Some ==> request.buttons is Some,
{
    let minimums = BoxMinimums::for_request(request);
    let joystick_hat_joystick_percent = config::joystick_hat_joystick_percent();
    let top_row = plan_top_row(
        area,
        request.joystick_columns(),
        minimums,
        request.top_row_request(),
        joystick_hat_joystick_percent,
    );
    let mut budget = LayoutBudget::new(area.height);
    budget.reserve(top_row.height());
    let touch = plan_touch(budget, request, minimums);
    budget.reserve(touch.height());
    let lower = LowerSectionLayout::plan(
        budget.remaining(),
        request,
        minimums,
        config::axes_box_percent(),
    );
    let ghost h_top = top_row.spec_height();
    let ghost h_touch = touch.height;
    assert(h_top + h_touch + lower.axes_height + lower.buttons_height <= area.height);
    let mut cursor_y = area.y;
    let (joystick_box, hat_box) = place_top_row(
        area,
        &mut cursor_y,
        top_row,
        joystick_hat_joystick_percent,
    );
    let ghost y1 = cursor_y;
    assert(area.wf() ==> y1 == area.y + h_top);
    assert(area.wf() ==> inside(area, joystick_box) && inside(area, hat_box));
    assert(area.wf() ==> (joystick_box matches Some(r) ==> r.y + r.height == y1));
    assert(area.wf() ==> (hat_box matches Some(r) ==> r.y + r.height == y1));
    let touch_box = if touch.is_visible() {
        take_next_box(area, &mut cursor_y, touch.height(), minimums.touch)
    } else {
        None
    };
    let ghost y2 = cursor_y;
    assert(area.wf() ==> y2 <= y1 + h_touch);
    assert(area.wf() ==> (touch_box matches Some(r) ==> r.y == y1 && r.y + r.height == y2));
    let axes_box = take_next_box(area, &mut cursor_y, lower.axes_height(), minimums.axes);
    let ghost y3 = cursor_y;
    assert(area.wf() ==> y3 <= y2 + lower.axes_height);
    assert(area.wf() ==> (axes_box matches Some(r) ==> r.y == y2 && r.y + r.height == y3));
    let buttons_box = take_next_box(area, &mut cursor_y, lower.buttons_height(), minimums.buttons);
    assert(area.wf() ==> (buttons_box matches Some(r) ==> r.y == y3 && r.y + r.height <= area.y + area.height));
    proof {
        if area.wf() && touch_box is Some {
            let t = touch_box.unwrap();
            assert(t.y == y1);
            if joystick_box is Some {
                assert(joystick_box.unwrap().y + joystick_box.unwrap().height == y1);
            }
            if hat_box is Some {
                assert(hat_box.unwrap().y + hat_box.unwrap().height == y1);
            }
        }
    }
    assert(area.wf() ==> above(joystick_box, touch_box) && above(hat_box, touch_box));
    assert(area.wf() ==> above(joystick_box, axes_box) && above(hat_box, axes_box));
    assert(area.wf() ==> above(joystick_box, buttons_box) && above(hat_box, buttons_box));
    assert(area.wf() ==> above(touch_box, axes_box) && above(touch_box, buttons_box));
    assert(area.wf() ==> above(axes_box, buttons_box));
    BoxLayout { joystick_box, hat_box, axes_box, touch_box, buttons_box }
}

} // verus!
