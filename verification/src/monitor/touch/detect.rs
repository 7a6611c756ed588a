use vstd::prelude::*;

use crate::monitor::codes::{
    contains_code, ABS_MT_POSITION_X, ABS_MT_POSITION_Y, ABS_MT_SLOT, ABS_X, ABS_Y,
    INPUT_PROP_BUTTONPAD, INPUT_PROP_DIRECT, INPUT_PROP_SEMI_MT, INPUT_PROP_TOPBUTTONPAD,
};
use crate::monitor::model::{snapshot_at, snapshot_for, AxisSnapshot};
use crate::monitor::touch::{
    preferred_touch_contact_key, spec_preferred_touch_contact_key, MultiTouchSlots, TouchMode,
    TouchRange,
};

verus! {

/// Which position axes a device has.
#[derive(Clone, Copy, Debug, PartialEq, Eq)]
pub enum TouchAxes {
    NoAxes,
    SingleTouch,
    MultiTouch { slots: MultiTouchSlots },
}

pub open spec fn spec_touch_axes(axes: Seq<u16>) -> TouchAxes {
    if axes.contains(ABS_MT_POSITION_X) && axes.contains(ABS_MT_POSITION_Y) {
        TouchAxes::MultiTouch {
            slots: if axes.contains(ABS_MT_SLOT) {
                MultiTouchSlots::Explicit
            } else {
                MultiTouchSlots::ImplicitSingle
            },
        }
    } else if axes.contains(ABS_X) && axes.contains(ABS_Y) {
        TouchAxes::SingleTouch
    } else {
        TouchAxes::NoAxes
    }
}

impl TouchAxes {
    /// The position axes among the absolute axes a device supports:
    /// multi-touch positions first, then plain positions.
    pub fn from_axes(axes: &[u16]) -> (t: Self)
        ensures
            t == spec_touch_axes(axes@),
    {
        if contains_code(axes, ABS_MT_POSITION_X) && contains_code(axes, ABS_MT_POSITION_Y) {
            let slots = if contains_code(axes, ABS_MT_SLOT) {
                MultiTouchSlots::Explicit
            } else {
                MultiTouchSlots::ImplicitSingle
            };
            return TouchAxes::MultiTouch { slots };
        }
        if contains_code(axes, ABS_X) && contains_code(axes, ABS_Y) {
            return TouchAxes::SingleTouch;
        }
        TouchAxes::NoAxes
    }
}

/// What tells a device with plain position axes apart as a touch device.
#[derive(Clone, Copy, Debug, PartialEq, Eq)]
pub enum TouchHint {
    NoHint,
    Property,
    ContactKey(u16),
}

pub open spec fn spec_has_touch_properties(properties: Seq<u16>) -> bool {
    properties.contains(INPUT_PROP_DIRECT) || properties.contains(INPUT_PROP_BUTTONPAD)
        || properties.contains(INPUT_PROP_SEMI_MT) || properties.contains(INPUT_PROP_TOPBUTTONPAD)
}

/// Whether the device properties mark a touchscreen or a touchpad.
pub fn has_touch_properties(properties: &[u16]) -> (b: bool)
    ensures
        b == spec_has_touch_properties(properties@),
{
    contains_code(properties, INPUT_PROP_DIRECT) || contains_code(properties, INPUT_PROP_BUTTONPAD)
        || contains_code(properties, INPUT_PROP_SEMI_MT) || contains_code(
        properties,
        INPUT_PROP_TOPBUTTONPAD,
    )
}

pub open spec fn spec_touch_hint(keys: Option<Seq<u16>>, properties: Seq<u16>) -> TouchHint {
    let key = match keys {
        Some(k) => spec_preferred_touch_contact_key(k),
        None => None,
    };
    match key {
        Some(k) => TouchHint::ContactKey(k),
        None => if spec_has_touch_properties(properties) {
            TouchHint::Property
        } else {
            TouchHint::NoHint
        },
    }
}

impl TouchHint {
    /// The hint from the supported keys (`None`: the device has no keys) and
    /// the device properties: a contact key first, then a touch property.
    pub fn from_parts(keys: Option<&[u16]>, properties: &[u16]) -> (h: Self)
        ensures
            h == spec_touch_hint(
                match keys {
                    Some(k) => Some(k@),
                    None => None,
                },
                properties@,
            ),
    {
        let key = match keys {
            Some(k) => preferred_touch_contact_key(k),
            None => None,
        };
        match key {
            Some(k) => TouchHint::ContactKey(k),
            None => if has_touch_properties(properties) {
                TouchHint::Property
            } else {
                TouchHint::NoHint
            },
        }
    }

    pub fn indicates_touch(self) -> (b: bool)
        ensures
            b == !(self is NoHint),
    {
        !matches!(self, TouchHint::NoHint)
    }

    pub fn contact_key(self) -> (k: Option<u16>)
        ensures
            k == (match self {
                TouchHint::ContactKey(key) => Some(key),
                _ => None,
            }),
    {
        match self {
            TouchHint::ContactKey(key) => Some(key),
            _ => None,
        }
    }
}

/// The axes and the hint of a device, from which its touch mode follows.
#[derive(Clone, Copy, Debug, PartialEq, Eq)]
pub struct TouchSignature {
    pub axes: TouchAxes,
    pub hint: TouchHint,
}

impl TouchSignature {
    pub open spec fn spec_mode(self) -> TouchMode {
        match self.axes {
            TouchAxes::MultiTouch { slots } => TouchMode::MultiTouch { slots },
            TouchAxes::SingleTouch => if !(self.hint is NoHint) {
                TouchMode::SingleTouch {
                    contact_key: match self.hint {
                        TouchHint::ContactKey(k) => Some(k),
                        _ => None,
                    },
                }
            } else {
                TouchMode::NoTouch
            },
            TouchAxes::NoAxes => TouchMode::NoTouch,
        }
    }

    /// The signature of a device; `None` where it has no absolute axes.
    pub fn from_parts(axes: Option<&[u16]>, keys: Option<&[u16]>, properties: &[u16]) -> (s: Option<Self>)
        ensures
            s == (match axes {
                Some(a) => Some(
                    TouchSignature {
                        axes: spec_touch_axes(a@),
                        hint: spec_touch_hint(
                            match keys {
                                Some(k) => Some(k@),
                                None => None,
                            },
                            properties@,
                        ),
                    },
                ),
                None => None,
            }),
    {
        match axes {
            Some(a) => Some(
                TouchSignature {
                    axes: TouchAxes::from_axes(a),
                    hint: TouchHint::from_parts(keys, properties),
                },
            ),
            None => None,
        }
    }

    /// Multi-touch axes decide on their own; plain position axes make a
    /// single-touch device only with a hint.
    pub fn mode(self) -> (m: TouchMode)
        ensures
            m == self.spec_mode(),
    {
        match self.axes {
            TouchAxes::MultiTouch { slots } => TouchMode::MultiTouch { slots },
            TouchAxes::SingleTouch => if self.hint.indicates_touch() {
                TouchMode::SingleTouch { contact_key: self.hint.contact_key() }
            } else {
                TouchMode::NoTouch
            },
            TouchAxes::NoAxes => TouchMode::NoTouch,
        }
    }
}

/// What a touch device starts with: its mode, slot limit, coordinate spans,
/// and the warnings its inspection raised.
pub struct TouchBootstrap {
    pub mode: TouchMode,
    pub slot_limit: Option<usize>,
    pub x_range: TouchRange,
    pub y_range: TouchRange,
    pub startup_warnings: Vec<String>,
}

pub open spec fn state_warning(err: Seq<char>) -> Seq<char> {
    "unable to load touch axis state; inferring touch bounds from incoming events: "@ + err
}

pub open spec fn range_warning() -> Seq<char> {
    "touch position range is unavailable; inferring touch bounds from incoming events"@
}

/// The span of axis `code` in the kernel's table, where the table was read.
pub open spec fn table_range(table: Option<Seq<AxisSnapshot>>, code: u16) -> TouchRange {
    match table {
        Some(t) => match snapshot_at(t, code) {
            Some(info) => TouchRange::Fixed { min: info.min, max: info.max },
            None => TouchRange::Unknown,
        },
        None => TouchRange::Unknown,
    }
}

pub open spec fn bootstrap_x_range(mode: TouchMode, table: Option<Seq<AxisSnapshot>>) -> TouchRange {
    match mode.spec_axes() {
        Some((x, y)) => table_range(table, x),
        None => TouchRange::Unknown,
    }
}

pub open spec fn bootstrap_y_range(mode: TouchMode, table: Option<Seq<AxisSnapshot>>) -> TouchRange {
    match mode.spec_axes() {
        Some((x, y)) => table_range(table, y),
        None => TouchRange::Unknown,
    }
}

/// The slot limit a device declares: one more than the slot axis maximum
/// (taken as 0 when negative), for explicit slots only.
pub open spec fn bootstrap_slot_limit(mode: TouchMode, table: Option<Seq<AxisSnapshot>>) -> Option<usize> {
    if mode.spec_axes() is Some && mode == (TouchMode::MultiTouch { slots: MultiTouchSlots::Explicit }) {
        match table {
            Some(t) => match snapshot_at(t, ABS_MT_SLOT) {
                Some(info) => Some((if info.max > 0 { info.max as int } else { 0 } + 1) as usize),
                None => None,
            },
            None => None,
        }
    } else {
        None
    }
}

pub open spec fn table_of(abs_state: Result<&[AxisSnapshot], String>) -> Option<Seq<AxisSnapshot>> {
    match abs_state {
        Ok(t) => Some(t@),
        Err(_) => None,
    }
}

/// The warnings of a touch inspection, in order: the failed read of the axis
/// table, then, where the table was read, a position span it lacks.
pub open spec fn bootstrap_warnings(mode: TouchMode, abs_state: Result<&[AxisSnapshot], String>) -> Seq<
    Seq<char>,
> {
    let table = table_of(abs_state);
    let first = match abs_state {
        Err(e) => seq![state_warning(e@)],
        Ok(_) => Seq::empty(),
    };
    let second = if table is Some && (bootstrap_x_range(mode, table) is Unknown || bootstrap_y_range(
        mode,
        table,
    ) is Unknown) {
        seq![range_warning()]
    } else {
        Seq::empty()
    };
    first + second
}

/// Everything a touch device starts with, from its mode and the kernel's
/// table of absolute axes (or the message of the failed read).
pub fn touch_bootstrap(mode: TouchMode, abs_state: Result<&[AxisSnapshot], String>) -> (b: TouchBootstrap)
    ensures
        b.mode == mode,
        b.x_range == bootstrap_x_range(mode, table_of(abs_state)),
        b.y_range == bootstrap_y_range(mode, table_of(abs_state)),
        b.slot_limit == bootstrap_slot_limit(mode, table_of(abs_state)),
        b.startup_warnings@.len() == bootstrap_warnings(mode, abs_state).len(),
        forall|i: int|
            0 <= i < b.startup_warnings@.len() ==> #[trigger] b.startup_warnings@[i]@
                == bootstrap_warnings(mode, abs_state)[i],
{
    let mut startup_warnings: Vec<String> = Vec::new();
    let table: Option<&[AxisSnapshot]> = match &abs_state {
        Ok(t) => Some(*t),
        Err(e) => {
            let mut w = String::from_str("unable to load touch axis state; inferring touch bounds from incoming events: ");
            w.append(e.as_str());
            startup_warnings.push(w);
            None
        },
    };
    let mut x_range = TouchRange::Unknown;
    let mut y_range = TouchRange::Unknown;
    let mut slot_limit: Option<usize> = None;
    match mode.axes() {
        Some((x_axis, y_axis)) => {
            match table {
                Some(t) => {
                    match snapshot_for(t, x_axis) {
                        Some(info) => x_range = TouchRange::fixed(info.min, info.max),
                        None => {},
                    }
                    match snapshot_for(t, y_axis) {
                        Some(info) => y_range = TouchRange::fixed(info.min, info.max),
                        None => {},
                    }
                    if mode.uses_explicit_slots() {
                        match snapshot_for(t, ABS_MT_SLOT) {
                            Some(info) => {
                                let top: i32 = if info.max > 0 { info.max } else { 0 };
                                slot_limit = Some(top as usize + 1);
                            },
                            None => {},
                        }
                    }
                },
                None => {},
            }
        },
        None => {},
    }
    if table.is_some() && (!x_range.is_known() || !y_range.is_known()) {
        startup_warnings.push(
            String::from_str("touch position range is unavailable; inferring touch bounds from incoming events"),
        );
    }
    TouchBootstrap { mode, slot_limit, x_range, y_range, startup_warnings }
}

/// A device with both multi-touch position axes (0x35 and 0x36) is a
/// multi-touch device, with a slot of its own for each contact exactly when
/// it also has the slot axis (0x2f), and with one implicit slot otherwise.
/// Without them, the plain position axes (0x00 and 0x01) make it a
/// single-touch device.
pub proof fn law_slots_are_explicit_with_the_slot_axis(axes: Seq<u16>)
    ensures
        axes.contains(0x35) && axes.contains(0x36) ==> spec_touch_axes(axes) == (TouchAxes::MultiTouch {
            slots: if axes.contains(0x2f) {
                MultiTouchSlots::Explicit
            } else {
                MultiTouchSlots::ImplicitSingle
            },
        }),
        !(axes.contains(0x35) && axes.contains(0x36)) && axes.contains(0) && axes.contains(1) ==> spec_touch_axes(
            axes,
        ) == TouchAxes::SingleTouch,
        (spec_touch_axes(axes) matches TouchAxes::MultiTouch { slots } && slots == MultiTouchSlots::Explicit)
            <==> (axes.contains(0x35) && axes.contains(0x36) && axes.contains(0x2f)),
{
}

} // verus!
