use vstd::prelude::*;

verus! {

pub const BUTTON_HEIGHT: u16 = 3;
/// Lower bound of the range assumed for an absolute axis whose kernel state is unknown.
pub const DEFAULT_AXIS_MIN: i32 = -32768;
/// Upper bound of the range assumed for an absolute axis whose kernel state is unknown.
pub const DEFAULT_AXIS_MAX: i32 = 32767;
/// Max cells allocated to an axis label.
pub const AXIS_LABEL_MAX: u16 = 20;
/// Vertical gap between axis bars.
pub const AXIS_GAP: u16 = 1;
/// Spacer before the relative section.
pub const REL_SECTION_GAP: u16 = 1;
/// Left padding inside the axis box.
pub const AXIS_LEFT_PADDING: u16 = 1;
/// Top padding inside the button grid area.
pub const BTN_SECTION_TOP_PADDING: u16 = 1;
/// Total vertical padding used for button section sizing.
pub const BTN_SECTION_VERT_PADDING: u16 = 2;
/// Column gap inside the button grid.
pub const BTN_COL_GAP: u16 = 1;
/// Minimum width to render an axis gauge.
pub const AXIS_MIN_WIDTH: u16 = 20;
/// Horizontal gap between label and gauge.
pub const LABEL_GAUGE_GAP: u16 = 1;
pub const COMPACT_BTN_COL_GAP: u16 = 1;
/// Minimum width to render the touchpad widget.
pub const TOUCHPAD_MIN_WIDTH: u16 = 20;
/// Minimum height to render the touchpad widget.
pub const TOUCHPAD_MIN_HEIGHT: u16 = 4;
/// Preferred height of the touchpad box.
pub const TOUCHPAD_HEIGHT: u16 = 7;
/// Minimum size of the joystick widget box.
pub const JOYSTICK_MIN_SIZE: u16 = 6;
/// Maximum size of the joystick widget box.
pub const JOYSTICK_MAX_SIZE: u16 = 12;
/// Width to height ratio of the joystick view.
pub const JOYSTICK_ASPECT_RATIO: u16 = 2;
/// Minimum size of the d-pad widget box.
pub const HAT_MIN_SIZE: u16 = 6;
/// Maximum size of the d-pad widget box.
pub const HAT_MAX_SIZE: u16 = 10;
/// Blocks per d-pad direction (length).
pub const HAT_BLOCKS: usize = 4;
/// Blocks across a d-pad direction (thickness).
pub const HAT_THICKNESS: usize = 2;
/// Inset inside the d-pad canvas.
pub const HAT_PADDING: u16 = 0;
/// Horizontal gap between the main column and the buttons column.
pub const MAIN_BUTTONS_GAP: u16 = 2;
/// Minimum width of the main column before splitting.
pub const MAIN_COLUMN_MIN_WIDTH: u16 = 30;
/// Minimum width of the buttons column before splitting.
pub const BUTTONS_COLUMN_MIN_WIDTH: u16 = 24;
/// Width of the window into which relative axis accumulators are wrapped for display.
pub const RELATIVE_DISPLAY_RANGE: i32 = 1000;
/// Number of single steps one page scroll moves in the monitor.
pub const PAGE_SCROLL_STEPS: usize = 5;
/// Number of rows one page scroll moves in the device selector.
pub const SELECTOR_PAGE_SCROLL_SIZE: i32 = 10;

/// Tallest bar height tried for an axis gauge.
pub const BAR_HEIGHT_TALL: u16 = 5;
/// Bar height tried when the tallest does not fit.
pub const BAR_HEIGHT_MEDIUM: u16 = 3;
/// Thinnest bar height, the last resort.
pub const BAR_HEIGHT_THIN: u16 = 1;

/// Bar heights tried for axis gauges, largest first.
pub open spec fn bar_heights() -> Seq<u16> {
    seq![BAR_HEIGHT_TALL, BAR_HEIGHT_MEDIUM, BAR_HEIGHT_THIN]
}

pub open spec fn spec_buttons_per_row() -> usize {
    3
}

/// Buttons laid out on one row of the button grid.
pub fn buttons_per_row() -> (n: usize)
    ensures
        n == spec_buttons_per_row(),
{
    3
}

/// Share, in percent, of the lower section given to the axes box.
pub fn axes_box_percent() -> (p: u16)
    ensures
        p == 60,
{
    60
}

/// Gap between two joysticks, and between the joystick and d-pad columns.
pub fn joystick_gap() -> (g: u16)
    ensures
        g == 2,
{
    2
}

/// Share, in percent, of a shared top row given to the joystick.
pub fn joystick_hat_joystick_percent() -> (p: u16)
    ensures
        p == 70,
{
    70
}

/// Share, in percent, of a split screen given to the main column.
pub fn main_column_percent() -> (p: u16)
    ensures
        p == 60,
{
    60
}

} // verus!

verus! {

/// Which section has focus when the monitor opens.
#[derive(Clone, Copy, Debug, PartialEq, Eq, Structural)]
pub enum StartupFocus {
    /// The axes when the device has any, otherwise the buttons.
    Auto,
    Axes,
    Buttons,
}

} // verus!
