use vstd::prelude::*;

verus! {

/// Absolute axis: horizontal position.
pub const ABS_X: u16 = 0x00;
/// Absolute axis: vertical position.
pub const ABS_Y: u16 = 0x01;
/// Absolute axis: right stick, horizontal.
pub const ABS_RX: u16 = 0x03;
/// Absolute axis: right stick, vertical.
pub const ABS_RY: u16 = 0x04;
/// Absolute axis: first hat switch, horizontal.
pub const ABS_HAT0X: u16 = 0x10;
/// Absolute axis: first hat switch, vertical.
pub const ABS_HAT0Y: u16 = 0x11;
/// Absolute axis: multi-touch slot selector.
pub const ABS_MT_SLOT: u16 = 0x2f;
/// Absolute axis: multi-touch contact position, horizontal.
pub const ABS_MT_POSITION_X: u16 = 0x35;
/// Absolute axis: multi-touch contact position, vertical.
pub const ABS_MT_POSITION_Y: u16 = 0x36;
/// Absolute axis: multi-touch contact tracking id (negative on release).
pub const ABS_MT_TRACKING_ID: u16 = 0x39;

/// Key: a finger tool in contact.
pub const BTN_TOOL_FINGER: u16 = 0x145;
/// Key: five fingers on a touchpad.
pub const BTN_TOOL_QUINTTAP: u16 = 0x148;
/// Key: surface contact.
pub const BTN_TOUCH: u16 = 0x14a;
/// Key: two fingers on a touchpad.
pub const BTN_TOOL_DOUBLETAP: u16 = 0x14d;
/// Key: three fingers on a touchpad.
pub const BTN_TOOL_TRIPLETAP: u16 = 0x14e;
/// Key: four fingers on a touchpad.
pub const BTN_TOOL_QUADTAP: u16 = 0x14f;

/// Device property: the device is a direct-input device (touchscreen).
pub const INPUT_PROP_DIRECT: u16 = 0x01;
/// Device property: a touchpad with the button under the surface.
pub const INPUT_PROP_BUTTONPAD: u16 = 0x02;
/// Device property: a touchpad reporting only a bounding box of contacts.
pub const INPUT_PROP_SEMI_MT: u16 = 0x03;
/// Device property: a touchpad with software buttons along its top.
pub const INPUT_PROP_TOPBUTTONPAD: u16 = 0x04;

/// Whether `code` occurs in `codes`.
pub fn contains_code(codes: &[u16], code: u16) -> (b: bool)
    ensures
        b == codes@.contains(code),
{
    let mut i: usize = 0;
    while i < codes.len()
        invariant
            i <= codes.len(),
            forall|j: int| 0 <= j < i ==> codes@[j] != code,
        decreases codes.len() - i,
    {
        if codes[i] == code {
            return true;
        }
        i = i + 1;
    }
    false
}

} // verus!
