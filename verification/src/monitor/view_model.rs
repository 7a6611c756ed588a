use vstd::prelude::*;

use crate::monitor::codes::{ABS_HAT0X, ABS_HAT0Y, ABS_RX, ABS_RY, ABS_X, ABS_Y};
use crate::monitor::config;
use crate::monitor::model::{AbsoluteAxis, InputCollection};
use crate::monitor::plan::Counts;
use crate::monitor::touch::TouchState;

verus! {

/// Both axes of one analog stick.
#[derive(Clone, Copy, Debug, PartialEq, Eq)]
pub struct StickState {
    pub x: AbsoluteAxis,
    pub y: AbsoluteAxis,
}

/// The sticks a device shows: left from the plain axes, right from the
/// rotational ones.
#[derive(Clone, Copy, Debug, PartialEq, Eq)]
pub struct JoystickState {
    pub left: Option<StickState>,
    pub right: Option<StickState>,
}

pub open spec fn stick_of(pair: Option<(AbsoluteAxis, AbsoluteAxis)>) -> Option<StickState> {
    match pair {
        Some((x, y)) => Some(StickState { x, y }),
        None => None,
    }
}

impl JoystickState {
    pub fn empty() -> (j: Self)
        ensures
            j.left is None,
            j.right is None,
    {
        JoystickState { left: None, right: None }
    }

    pub fn from_axes(
        left: Option<(AbsoluteAxis, AbsoluteAxis)>,
        right: Option<(AbsoluteAxis, AbsoluteAxis)>,
    ) -> (j: Self)
        ensures
            j.left == stick_of(left),
            j.right == stick_of(right),
    {
        let l = match left {
            Some((x, y)) => Some(StickState { x, y }),
            None => None,
        };
        let r = match right {
            Some((x, y)) => Some(StickState { x, y }),
            None => None,
        };
        JoystickState { left: l, right: r }
    }

    pub open spec fn spec_count(self) -> nat {
        (if self.left is Some { 1nat } else { 0nat }) + (if self.right is Some { 1nat } else { 0nat })
    }

    /// The number of sticks present.
    pub fn count(&self) -> (n: usize)
        ensures
            n == self.spec_count(),
    {
        let l: usize = if self.left.is_some() { 1 } else { 0 };
        let r: usize = if self.right.is_some() { 1 } else { 0 };
        l + r
    }
}

pub open spec fn spec_sign(value: i32) -> int {
    if value > 0 {
        1
    } else if value < 0 {
        -1
    } else {
        0
    }
}

/// The sign of `value`: 1, -1 or 0.
pub fn sign(value: i32) -> (s: i32)
    ensures
        s == spec_sign(value),
{
    if value > 0 {
        1
    } else if value < 0 {
        -1
    } else {
        0
    }
}

/// The direction of a hat switch, each coordinate -1, 0 or 1.
#[derive(Clone, Copy, Debug, PartialEq, Eq)]
pub struct HatState {
    pub x: i32,
    pub y: i32,
}

impl HatState {
    /// The direction of the hat axes; `invert_y` flips the vertical one.
    pub fn from_axes(x: AbsoluteAxis, y: AbsoluteAxis, invert_y: bool) -> (h: Self)
        ensures
            h.x == spec_sign(x.value),
            h.y == (if invert_y { -spec_sign(y.value) } else { spec_sign(y.value) }),
    {
        let sy = sign(y.value);
        let hy = if invert_y { -sy } else { sy };
        HatState { x: sign(x.value), y: hy }
    }
}

/// What the monitor's layout needs to know of a device's current readings.
#[derive(Clone, Copy, Debug, PartialEq, Eq)]
pub struct MonitorViewModel {
    pub joystick: JoystickState,
    pub hat_state: Option<HatState>,
    pub axes_available: bool,
    pub touch_enabled: bool,
    pub buttons_available: bool,
}

pub open spec fn spec_hat_of(pair: Option<(AbsoluteAxis, AbsoluteAxis)>, invert_y: bool) -> Option<HatState> {
    match pair {
        Some((x, y)) => Some(
            HatState {
                x: spec_sign(x.value) as i32,
                y: (if invert_y { -spec_sign(y.value) } else { spec_sign(y.value) }) as i32,
            },
        ),
        None => None,
    }
}

pub open spec fn spec_pair(inputs: InputCollection, x: u16, y: u16) -> Option<(AbsoluteAxis, AbsoluteAxis)> {
    match (inputs.spec_absolute_axis(x), inputs.spec_absolute_axis(y)) {
        (Some(ax), Some(ay)) => Some((ax, ay)),
        _ => None,
    }
}

pub open spec fn max_u16(a: u16, b: u16) -> u16 {
    if a >= b { a } else { b }
}

impl MonitorViewModel {
    /// The view of a device: a touch device shows no sticks and no hat;
    /// otherwise the sticks and the hat come from their axis pairs.
    pub fn from_inputs(counts: Counts, inputs: &InputCollection, touch: &TouchState, invert_y: bool) -> (m: Self)
        ensures
            m.joystick == (if !(touch@.mode is NoTouch) {
                JoystickState { left: None, right: None }
            } else {
                JoystickState {
                    left: stick_of(spec_pair(*inputs, ABS_X, ABS_Y)),
                    right: stick_of(spec_pair(*inputs, ABS_RX, ABS_RY)),
                }
            }),
            m.hat_state == (if !(touch@.mode is NoTouch) {
                None
            } else {
                spec_hat_of(spec_pair(*inputs, ABS_HAT0X, ABS_HAT0Y), invert_y)
            }),
            m.axes_available == (counts.spec_total_axes() > 0),
            m.touch_enabled == (touch@.x_range.spec_range().is_some()
                && touch@.y_range.spec_range().is_some()),
            m.buttons_available == (counts.btn > 0),
    {
        let is_touch = touch.is_touch_device();
        let joystick = if is_touch {
            JoystickState::empty()
        } else {
            JoystickState::from_axes(
                inputs.absolute_axis_pair(ABS_X, ABS_Y),
                inputs.absolute_axis_pair(ABS_RX, ABS_RY),
            )
        };
        let hat_state = if is_touch {
            None
        } else {
            match inputs.absolute_axis_pair(ABS_HAT0X, ABS_HAT0Y) {
                Some((x, y)) => Some(HatState::from_axes(x, y, invert_y)),
                None => None,
            }
        };
        MonitorViewModel {
            joystick,
            hat_state,
            axes_available: counts.abs > 0 || counts.rel > 0,
            touch_enabled: touch.enabled(),
            buttons_available: counts.has_buttons(),
        }
    }

    pub fn joystick_count(&self) -> (n: usize)
        ensures
            n == self.joystick.spec_count(),
    {
        self.joystick.count()
    }

    pub fn joystick_present(&self) -> (b: bool)
        ensures
            b == (self.joystick.spec_count() > 0),
    {
        self.joystick_count() > 0
    }

    pub fn hat_present(&self) -> (b: bool)
        ensures
            b == self.hat_state is Some,
    {
        self.hat_state.is_some()
    }

    pub open spec fn spec_main_min_width(self) -> u16 {
        let w0 = config::MAIN_COLUMN_MIN_WIDTH;
        let w1 = if self.axes_available { max_u16(w0, config::AXIS_MIN_WIDTH) } else { w0 };
        let w2 = if self.touch_enabled { max_u16(w1, config::TOUCHPAD_MIN_WIDTH) } else { w1 };
        let w3 = if self.joystick.spec_count() > 0 { max_u16(w2, config::JOYSTICK_MIN_SIZE) } else { w2 };
        if self.hat_state is Some { max_u16(w3, config::HAT_MIN_SIZE) } else { w3 }
    }

    /// The narrowest the main column may be: wide enough for each widget
    /// the device shows.
    pub fn main_min_width(&self) -> (w: u16)
        ensures
            w == self.spec_main_min_width(),
    {
        let mut width = config::MAIN_COLUMN_MIN_WIDTH;
        if self.axes_available && config::AXIS_MIN_WIDTH > width {
            width = config::AXIS_MIN_WIDTH;
        }
        if self.touch_enabled && config::TOUCHPAD_MIN_WIDTH > width {
            width = config::TOUCHPAD_MIN_WIDTH;
        }
        if self.joystick_present() && config::JOYSTICK_MIN_SIZE > width {
            width = config::JOYSTICK_MIN_SIZE;
        }
        if self.hat_present() && config::HAT_MIN_SIZE > width {
            width = config::HAT_MIN_SIZE;
        }
        width
    }
}

} // verus!
