use vstd::prelude::*;

use crate::monitor::codes::{
    contains_code, BTN_TOOL_DOUBLETAP, BTN_TOOL_FINGER, BTN_TOOL_QUADTAP, BTN_TOOL_QUINTTAP,
    BTN_TOOL_TRIPLETAP, BTN_TOUCH,
};
use crate::monitor::config::{DEFAULT_AXIS_MAX, DEFAULT_AXIS_MIN};
use crate::monitor::config::StartupFocus;
use crate::monitor::model::{
    all_filed, snapshot_at, snapshot_for, AbsoluteState, AxisOrigin, AxisSnapshot, DeviceInput,
    InputCollection, InputKind,
};
use crate::monitor::plan::Counts;
use crate::monitor::state::{spec_initial_focus, ActivePopup, MonitorState};
use crate::monitor::touch::detect::TouchBootstrap;
use crate::monitor::touch::{initial_view, touch_wf, TouchMode, TouchRange, TouchState};
use crate::ui::numbers::{alternate_hex, digits, push_char, usize_decimal};

verus! {

/// A value together with the warnings raised while it was set up.
pub struct Bootstrapped<T> {
    pub value: T,
    pub startup_warnings: Vec<String>,
}

impl<T> Bootstrapped<T> {
    pub fn new(value: T) -> (b: Self)
        ensures
            b.value == value,
            b.startup_warnings@.len() == 0,
    {
        Self::with_warnings(value, Vec::new())
    }

    pub fn with_warnings(value: T, startup_warnings: Vec<String>) -> (b: Self)
        ensures
            b.value == value,
            b.startup_warnings == startup_warnings,
    {
        Bootstrapped { value, startup_warnings }
    }

    pub fn into_parts(self) -> (p: (T, Vec<String>))
        ensures
            p.0 == self.value,
            p.1 == self.startup_warnings,
    {
        (self.value, self.startup_warnings)
    }
}

/// The identity a device reports: bus type, vendor, product and version.
#[derive(Clone, Copy, Debug, PartialEq, Eq)]
pub struct DeviceId {
    pub bus_type: u16,
    pub vendor: u16,
    pub product: u16,
    pub version: u16,
}

impl DeviceId {
    pub fn new(bus_type: u16, vendor: u16, product: u16, version: u16) -> (d: Self)
        ensures
            d == (DeviceId { bus_type, vendor, product, version }),
    {
        DeviceId { bus_type, vendor, product, version }
    }
}

pub open spec fn hex(n: u16) -> Seq<char> {
    seq!['0', 'x'] + digits(n as nat, 16)
}

pub open spec fn driver_line(version: (u8, u8, u8)) -> Seq<char> {
    "Input driver version: "@ + digits(version.0 as nat, 10) + seq!['.'] + digits(version.1 as nat, 10)
        + seq!['.'] + digits(version.2 as nat, 10)
}

pub open spec fn id_line(id: DeviceId) -> Seq<char> {
    "Input device ID: bus "@ + hex(id.bus_type) + ", vendor "@ + hex(id.vendor) + ", product "@ + hex(
        id.product,
    ) + ", version "@ + hex(id.version)
}

pub open spec fn phys_line(phys: Option<Seq<char>>) -> Seq<char> {
    "Input device phys: "@ + match phys {
        Some(p) => p,
        None => "n/a"@,
    }
}

pub open spec fn warning_line(warning: Seq<char>) -> Seq<char> {
    "Startup warning: "@ + warning
}

/// The lines of the device information popup: driver version, identity and
/// physical path (`n/a` where unknown), then each startup warning in order.
pub open spec fn spec_device_info_lines(
    driver_version: (u8, u8, u8),
    id: DeviceId,
    phys: Option<Seq<char>>,
    warnings: Seq<String>,
) -> Seq<Seq<char>> {
    seq![driver_line(driver_version), id_line(id), phys_line(phys)] + warnings.map_values(
        |w: String| warning_line(w@),
    )
}

pub fn device_info_lines(
    driver_version: (u8, u8, u8),
    id: DeviceId,
    phys: Option<&str>,
    startup_warnings: &[String],
) -> (lines: Vec<String>)
    ensures
        lines@.len() == spec_device_info_lines(
            driver_version,
            id,
            match phys {
                Some(p) => Some(p@),
                None => None,
            },
            startup_warnings@,
        ).len(),
        forall|i: int|
            0 <= i < lines@.len() ==> #[trigger] lines@[i]@ == spec_device_info_lines(
                driver_version,
                id,
                match phys {
                    Some(p) => Some(p@),
                    None => None,
                },
                startup_warnings@,
            )[i],
{
    let ghost expected = spec_device_info_lines(
        driver_version,
        id,
        match phys {
            Some(p) => Some(p@),
            None => None,
        },
        startup_warnings@,
    );
    let (major, minor, patch) = driver_version;
    let mut driver = String::from_str("Input driver version: ");
    driver.append(usize_decimal(major as usize).as_str());
    push_char(&mut driver, '.');
    driver.append(usize_decimal(minor as usize).as_str());
    push_char(&mut driver, '.');
    driver.append(usize_decimal(patch as usize).as_str());
    assert(driver@ =~= driver_line(driver_version));

    let mut ident = String::from_str("Input device ID: bus ");
    ident.append(alternate_hex(id.bus_type).as_str());
    ident.append(", vendor ");
    ident.append(alternate_hex(id.vendor).as_str());
    ident.append(", product ");
    ident.append(alternate_hex(id.product).as_str());
    ident.append(", version ");
    ident.append(alternate_hex(id.version).as_str());
    assert(ident@ =~= id_line(id));

    let mut path = String::from_str("Input device phys: ");
    match phys {
        Some(p) => path.append(p),
        None => path.append("n/a"),
    }

    let mut lines: Vec<String> = Vec::new();
    lines.push(driver);
    lines.push(ident);
    lines.push(path);
    let mut i: usize = 0;
    while i < startup_warnings.len()
        invariant
            i <= startup_warnings@.len(),
            lines@.len() == 3 + i,
            expected == spec_device_info_lines(
                driver_version,
                id,
                match phys {
                    Some(p) => Some(p@),
                    None => None,
                },
                startup_warnings@,
            ),
            expected.len() == 3 + startup_warnings@.len(),
            forall|j: int| 0 <= j < lines@.len() ==> #[trigger] lines@[j]@ == expected[j],
        decreases startup_warnings@.len() - i,
    {
        let mut line = String::from_str("Startup warning: ");
        line.append(startup_warnings[i].as_str());
        assert(expected[3 + i] == warning_line(startup_warnings@[i as int]@));
        lines.push(line);
        i = i + 1;
    }
    lines
}

/// The text that Debug formatting writes for absolute axis `code`: the
/// axis's constant name, or a note with the number for an unnamed code.
pub uninterp spec fn absolute_axis_debug(code: u16) -> Seq<char>;

/// The text that Debug formatting writes for relative axis `code`.
pub uninterp spec fn relative_axis_debug(code: u16) -> Seq<char>;

/// The text that Debug formatting writes for key `code`.
pub uninterp spec fn key_code_debug(code: u16) -> Seq<char>;

/// What `str::to_lowercase` makes of a text.
pub uninterp spec fn lowercased(s: Seq<char>) -> Seq<char>;

/// Formats `evdev::AbsoluteAxisCode(code)` with `Debug`; the text is a
/// function of the code alone, named `absolute_axis_debug`.
#[verifier::external_body]
fn absolute_axis_debug_text(code: u16) -> (s: String)
    ensures
        s@ == absolute_axis_debug(code),
{
    format!("{:?}", evdev::AbsoluteAxisCode(code))
}

/// Formats `evdev::RelativeAxisCode(code)` with `Debug`; the text is a
/// function of the code alone, named `relative_axis_debug`.
#[verifier::external_body]
fn relative_axis_debug_text(code: u16) -> (s: String)
    ensures
        s@ == relative_axis_debug(code),
{
    format!("{:?}", evdev::RelativeAxisCode(code))
}

/// Formats `evdev::KeyCode(code)` with `Debug`; the text is a function of
/// the code alone, named `key_code_debug`.
#[verifier::external_body]
fn key_code_debug_text(code: u16) -> (s: String)
    ensures
        s@ == key_code_debug(code),
{
    format!("{:?}", evdev::KeyCode(code))
}

/// Calls `str::to_lowercase`, whose result depends on the text alone
/// (Unicode case mapping, no locale); it is named `lowercased`.
#[verifier::external_body]
fn to_lowercase(s: &str) -> (r: String)
    ensures
        r@ == lowercased(s@),
{
    s.to_lowercase()
}

/// The name the monitor shows for absolute axis `code`.
pub fn absolute_name(code: u16) -> (s: String)
    ensures
        s@ == lowercased(absolute_axis_debug(code)),
{
    let text = absolute_axis_debug_text(code);
    to_lowercase(text.as_str())
}

/// The name the monitor shows for relative axis `code`.
pub fn relative_name(code: u16) -> (s: String)
    ensures
        s@ == lowercased(relative_axis_debug(code)),
{
    let text = relative_axis_debug_text(code);
    to_lowercase(text.as_str())
}

pub open spec fn btn_prefix() -> Seq<char> {
    seq!['b', 't', 'n', '_']
}

pub open spec fn spec_strip_btn_prefix(name: Seq<char>) -> Seq<char> {
    if name.len() >= 4 && name.subrange(0, 4) == btn_prefix() {
        name.subrange(4, name.len() as int)
    } else {
        name
    }
}

/// `name` without a leading `btn_`.
pub fn strip_btn_prefix(name: &str) -> (s: String)
    ensures
        s@ == spec_strip_btn_prefix(name@),
{
    let len = name.unicode_len();
    if len >= 4 && name.get_char(0) == 'b' && name.get_char(1) == 't' && name.get_char(2) == 'n'
        && name.get_char(3) == '_' {
        assert(name@.subrange(0, 4) =~= btn_prefix());
        let rest = name.substring_char(4, len);
        String::from_str(rest)
    } else {
        proof {
            if name@.len() >= 4 && name@.subrange(0, 4) == btn_prefix() {
                assert(name@[0] == name@.subrange(0, 4)[0]);
                assert(name@[1] == name@.subrange(0, 4)[1]);
                assert(name@[2] == name@.subrange(0, 4)[2]);
                assert(name@[3] == name@.subrange(0, 4)[3]);
            }
        }
        String::from_str(name)
    }
}

/// The name the monitor shows for button `code`.
pub open spec fn button_label(code: u16) -> Seq<char> {
    spec_strip_btn_prefix(lowercased(key_code_debug(code)))
}

pub fn button_name(code: u16) -> (s: String)
    ensures
        s@ == button_label(code),
{
    let text = key_code_debug_text(code);
    let lower = to_lowercase(text.as_str());
    strip_btn_prefix(lower.as_str())
}

pub open spec fn spec_is_touch_contact_button(code: u16) -> bool {
    code == BTN_TOUCH || code == BTN_TOOL_FINGER || code == BTN_TOOL_DOUBLETAP || code
        == BTN_TOOL_TRIPLETAP || code == BTN_TOOL_QUADTAP || code == BTN_TOOL_QUINTTAP
}

/// The keys that report touch contact and finger counts rather than
/// buttons.
pub fn is_touch_contact_button(code: u16) -> (b: bool)
    ensures
        b == spec_is_touch_contact_button(code),
{
    code == BTN_TOUCH || code == BTN_TOOL_FINGER || code == BTN_TOOL_DOUBLETAP || code
        == BTN_TOOL_TRIPLETAP || code == BTN_TOOL_QUADTAP || code == BTN_TOOL_QUINTTAP
}

pub open spec fn spec_is_key_pressed(code: u16, key_state: Option<Seq<u16>>) -> bool {
    match key_state {
        Some(keys) => keys.contains(code),
        None => false,
    }
}

/// Whether key `code` is among the pressed keys the kernel reported; a
/// device whose key state is unknown starts with every key released.
pub fn is_key_pressed(code: u16, key_state: Option<&[u16]>) -> (b: bool)
    ensures
        b == spec_is_key_pressed(
            code,
            match key_state {
                Some(k) => Some(k@),
                None => None,
            },
        ),
{
    match key_state {
        Some(keys) => contains_code(keys, code),
        None => false,
    }
}

pub open spec fn spec_absolute_state_from_snapshot(snapshot: Option<AxisSnapshot>) -> AbsoluteState {
    match snapshot {
        Some(s) => AbsoluteState { origin: AxisOrigin::Kernel, min: s.min, max: s.max, value: s.value },
        None => AbsoluteState {
            origin: AxisOrigin::Fallback,
            min: DEFAULT_AXIS_MIN,
            max: DEFAULT_AXIS_MAX,
            value: 0,
        },
    }
}

/// The starting state of an absolute axis: what the kernel reported, else
/// the default range at zero.
pub fn absolute_state_from_snapshot(snapshot: Option<AxisSnapshot>) -> (s: AbsoluteState)
    ensures
        s == spec_absolute_state_from_snapshot(snapshot),
{
    match snapshot {
        Some(s) => AbsoluteState::kernel(s.min, s.max, s.value),
        None => AbsoluteState::fallback(DEFAULT_AXIS_MIN, DEFAULT_AXIS_MAX, 0),
    }
}

/// The snapshot of axis `code` in a table that may not have been read.
pub open spec fn table_snapshot(table: Option<Seq<AxisSnapshot>>, code: u16) -> Option<AxisSnapshot> {
    match table {
        Some(t) => snapshot_at(t, code),
        None => None,
    }
}

/// The absolute axes of a device, each with its name and starting state.
pub fn absolute_entries(codes: &[u16], table: Option<&[AxisSnapshot]>) -> (v: Vec<(u16, DeviceInput)>)
    ensures
        v@.len() == codes@.len(),
        forall|i: int|
            0 <= i < v@.len() ==> {
                &&& (#[trigger] v@[i]).0 == codes@[i]
                &&& v@[i].1.name@ == lowercased(absolute_axis_debug(codes@[i]))
                &&& v@[i].1.input_type == InputKind::Absolute(
                    spec_absolute_state_from_snapshot(
                        table_snapshot(
                            match table {
                                Some(t) => Some(t@),
                                None => None,
                            },
                            codes@[i],
                        ),
                    ),
                )
            },
{
    let ghost tab = match table {
        Some(t) => Some(t@),
        None => None,
    };
    let mut v: Vec<(u16, DeviceInput)> = Vec::new();
    let mut i: usize = 0;
    while i < codes.len()
        invariant
            i <= codes@.len(),
            v@.len() == i,
            tab == (match table {
                Some(t) => Some(t@),
                None => None,
            }),
            forall|j: int|
                0 <= j < i ==> {
                    &&& (#[trigger] v@[j]).0 == codes@[j]
                    &&& v@[j].1.name@ == lowercased(absolute_axis_debug(codes@[j]))
                    &&& v@[j].1.input_type == InputKind::Absolute(
                        spec_absolute_state_from_snapshot(table_snapshot(tab, codes@[j])),
                    )
                },
        decreases codes@.len() - i,
    {
        let code = codes[i];
        let snapshot = match table {
            Some(t) => snapshot_for(t, code),
            None => None,
        };
        let input = DeviceInput::absolute(absolute_name(code), absolute_state_from_snapshot(snapshot));
        v.push((code, input));
        i = i + 1;
    }
    v
}

/// The relative axes of a device, each with its name, at rest.
pub fn relative_entries(codes: &[u16]) -> (v: Vec<(u16, DeviceInput)>)
    ensures
        v@.len() == codes@.len(),
        forall|i: int|
            0 <= i < v@.len() ==> {
                &&& (#[trigger] v@[i]).0 == codes@[i]
                &&& v@[i].1.name@ == lowercased(relative_axis_debug(codes@[i]))
                &&& v@[i].1.input_type == InputKind::Relative(0)
            },
{
    let mut v: Vec<(u16, DeviceInput)> = Vec::new();
    let mut i: usize = 0;
    while i < codes.len()
        invariant
            i <= codes@.len(),
            v@.len() == i,
            forall|j: int|
                0 <= j < i ==> {
                    &&& (#[trigger] v@[j]).0 == codes@[j]
                    &&& v@[j].1.name@ == lowercased(relative_axis_debug(codes@[j]))
                    &&& v@[j].1.input_type == InputKind::Relative(0)
                },
        decreases codes@.len() - i,
    {
        let code = codes[i];
        v.push((code, DeviceInput::relative(relative_name(code))));
        i = i + 1;
    }
    v
}

/// The supported keys that are buttons: all but the touch contact keys, in
/// order.
pub open spec fn button_codes(codes: Seq<u16>) -> Seq<u16>
    decreases codes.len(),
{
    if codes.len() == 0 {
        seq![]
    } else if spec_is_touch_contact_button(codes.last()) {
        button_codes(codes.drop_last())
    } else {
        button_codes(codes.drop_last()).push(codes.last())
    }
}

/// The buttons of a device, each with its name and whether the kernel
/// reported it pressed.
pub fn button_entries(codes: &[u16], key_state: Option<&[u16]>) -> (v: Vec<(u16, DeviceInput)>)
    ensures
        v@.len() == button_codes(codes@).len(),
        forall|i: int|
            0 <= i < v@.len() ==> {
                &&& (#[trigger] v@[i]).0 == button_codes(codes@)[i]
                &&& v@[i].1.name@ == button_label(button_codes(codes@)[i])
                &&& v@[i].1.input_type == InputKind::Button(
                    spec_is_key_pressed(
                        button_codes(codes@)[i],
                        match key_state {
                            Some(k) => Some(k@),
                            None => None,
                        },
                    ),
                )
            },
{
    let ghost keys = match key_state {
        Some(k) => Some(k@),
        None => None,
    };
    let mut v: Vec<(u16, DeviceInput)> = Vec::new();
    let mut i: usize = 0;
    while i < codes.len()
        invariant
            i <= codes@.len(),
            keys == (match key_state {
                Some(k) => Some(k@),
                None => None,
            }),
            v@.len() == button_codes(codes@.take(i as int)).len(),
            forall|j: int|
                0 <= j < v@.len() ==> {
                    &&& (#[trigger] v@[j]).0 == button_codes(codes@.take(i as int))[j]
                    &&& v@[j].1.name@ == button_label(button_codes(codes@.take(i as int))[j])
                    &&& v@[j].1.input_type == InputKind::Button(
                        spec_is_key_pressed(button_codes(codes@.take(i as int))[j], keys),
                    )
                },
        decreases codes@.len() - i,
    {
        let code = codes[i];
        assert(codes@.take(i + 1).drop_last() =~= codes@.take(i as int));
        assert(codes@.take(i + 1).last() == code);
        if !is_touch_contact_button(code) {
            let pressed = is_key_pressed(code, key_state);
            v.push((code, DeviceInput::button(button_name(code), pressed)));
        }
        i = i + 1;
    }
    assert(codes@.take(codes@.len() as int) =~= codes@);
    v
}

pub open spec fn absolute_state_warning(err: Seq<char>) -> Seq<char> {
    "unable to load absolute axis state; using fallback defaults until events arrive: "@ + err
}

pub open spec fn key_state_warning(err: Seq<char>) -> Seq<char> {
    "unable to load key/button state; buttons start released until events arrive: "@ + err
}

/// The inputs of a device before they are ordered and indexed, with the
/// warnings raised while reading their starting state.
pub struct BootstrapEntries {
    pub absolute: Vec<(u16, DeviceInput)>,
    pub relative: Vec<(u16, DeviceInput)>,
    pub buttons: Vec<(u16, DeviceInput)>,
    pub startup_warnings: Vec<String>,
}

pub open spec fn opt_view(s: Option<&[u16]>) -> Seq<u16> {
    match s {
        Some(c) => c@,
        None => seq![],
    }
}

pub open spec fn loaded_table(abs_state: Option<Result<Vec<AxisSnapshot>, String>>) -> Option<Seq<AxisSnapshot>> {
    match abs_state {
        Some(Ok(t)) => Some(t@),
        _ => None,
    }
}

pub open spec fn loaded_keys(key_state: Option<Result<Vec<u16>, String>>) -> Option<Seq<u16>> {
    match key_state {
        Some(Ok(k)) => Some(k@),
        _ => None,
    }
}

/// The warnings of reading the starting state: the axis table first, then
/// the key state, each where its read failed.
pub open spec fn load_warnings(
    abs_state: Option<Result<Vec<AxisSnapshot>, String>>,
    key_state: Option<Result<Vec<u16>, String>>,
) -> Seq<Seq<char>> {
    (match abs_state {
        Some(Err(e)) => seq![absolute_state_warning(e@)],
        _ => seq![],
    }) + (match key_state {
        Some(Err(e)) => seq![key_state_warning(e@)],
        _ => seq![],
    })
}

/// Gathers the inputs of a device from the codes it supports (`None`: it
/// has none of that kind) and its starting state as read from the kernel
/// (`None`: not read, as the device has no such inputs; `Err`: the message
/// of the failed read).
pub fn collect_device_inputs(
    absolute_axes: Option<&[u16]>,
    relative_axes: Option<&[u16]>,
    keys: Option<&[u16]>,
    abs_state: Option<Result<Vec<AxisSnapshot>, String>>,
    key_state: Option<Result<Vec<u16>, String>>,
) -> (e: BootstrapEntries)
    ensures
        e.absolute@.len() == opt_view(absolute_axes).len(),
        forall|i: int|
            0 <= i < e.absolute@.len() ==> {
                &&& (#[trigger] e.absolute@[i]).0 == opt_view(absolute_axes)[i]
                &&& e.absolute@[i].1.name@ == lowercased(absolute_axis_debug(opt_view(absolute_axes)[i]))
                &&& e.absolute@[i].1.input_type == InputKind::Absolute(
                    spec_absolute_state_from_snapshot(
                        table_snapshot(loaded_table(abs_state), opt_view(absolute_axes)[i]),
                    ),
                )
            },
        e.relative@.len() == opt_view(relative_axes).len(),
        forall|i: int|
            0 <= i < e.relative@.len() ==> {
                &&& (#[trigger] e.relative@[i]).0 == opt_view(relative_axes)[i]
                &&& e.relative@[i].1.name@ == lowercased(relative_axis_debug(opt_view(relative_axes)[i]))
                &&& e.relative@[i].1.input_type == InputKind::Relative(0)
            },
        e.buttons@.len() == button_codes(opt_view(keys)).len(),
        forall|i: int|
            0 <= i < e.buttons@.len() ==> {
                &&& (#[trigger] e.buttons@[i]).0 == button_codes(opt_view(keys))[i]
                &&& e.buttons@[i].1.name@ == button_label(button_codes(opt_view(keys))[i])
                &&& e.buttons@[i].1.input_type == InputKind::Button(
                    spec_is_key_pressed(button_codes(opt_view(keys))[i], loaded_keys(key_state)),
                )
            },
        e.startup_warnings@.len() == load_warnings(abs_state, key_state).len(),
        forall|i: int|
            0 <= i < e.startup_warnings@.len() ==> #[trigger] e.startup_warnings@[i]@ == load_warnings(
                abs_state,
                key_state,
            )[i],
{
    let mut startup_warnings: Vec<String> = Vec::new();
    let table: Option<&[AxisSnapshot]> = match &abs_state {
        Some(Ok(t)) => Some(t.as_slice()),
        Some(Err(err)) => {
            let mut w = String::from_str(
                "unable to load absolute axis state; using fallback defaults until events arrive: ",
            );
            w.append(err.as_str());
            startup_warnings.push(w);
            None
        },
        None => None,
    };
    let pressed: Option<&[u16]> = match &key_state {
        Some(Ok(k)) => Some(k.as_slice()),
        Some(Err(err)) => {
            let mut w = String::from_str(
                "unable to load key/button state; buttons start released until events arrive: ",
            );
            w.append(err.as_str());
            startup_warnings.push(w);
            None
        },
        None => None,
    };
    let empty: Vec<u16> = Vec::new();
    let absolute = match absolute_axes {
        Some(codes) => absolute_entries(codes, table),
        None => absolute_entries(empty.as_slice(), table),
    };
    let relative = match relative_axes {
        Some(codes) => relative_entries(codes),
        None => relative_entries(empty.as_slice()),
    };
    let buttons = match keys {
        Some(codes) => button_entries(codes, pressed),
        None => button_entries(empty.as_slice(), pressed),
    };
    proof {
        assert(empty@ =~= Seq::<u16>::empty());
        assert(button_codes(Seq::<u16>::empty()) =~= Seq::<u16>::empty());
    }
    BootstrapEntries { absolute, relative, buttons, startup_warnings }
}

/// The input model of a device from its gathered inputs, with the warnings
/// raised while gathering them.
pub fn inputs_from_entries(entries: BootstrapEntries) -> (b: Bootstrapped<InputCollection>)
    ensures
        all_filed(
            entries.absolute@,
            entries.relative@,
            entries.buttons@,
            b.value.buckets,
            b.value.event_index@,
        ),
        b.startup_warnings == entries.startup_warnings,
{
    let collection = InputCollection::from_entries(entries.absolute, entries.relative, entries.buttons);
    Bootstrapped::with_warnings(collection, entries.startup_warnings)
}

/// The touch state of a device from its inspection; a device that is not a
/// touch device gets the disabled state and no warnings.
pub fn touch_from_inspection(inspection: Option<TouchBootstrap>) -> (b: Bootstrapped<TouchState>)
    ensures
        touch_wf(b.value@),
        match inspection {
            Some(t) => b.value@ == initial_view(t.mode, t.slot_limit, t.x_range, t.y_range)
                && b.startup_warnings == t.startup_warnings,
            None => b.value@ == initial_view(
                TouchMode::NoTouch,
                Some(0),
                TouchRange::Unknown,
                TouchRange::Unknown,
            ) && b.startup_warnings@.len() == 0,
        },
{
    match inspection {
        Some(t) => {
            let state = TouchState::from_parts(t.mode, t.slot_limit, t.x_range, t.y_range);
            Bootstrapped::with_warnings(state, t.startup_warnings)
        },
        None => Bootstrapped::new(TouchState::disabled()),
    }
}

/// What the monitor starts with for a device: its inputs, its touch state,
/// and the view state whose information lines list the device's metadata
/// and every startup warning, those of the inputs first.
pub struct MonitorBootstrap {
    pub inputs: InputCollection,
    pub touch: TouchState,
    pub state: MonitorState,
}

pub fn assemble_monitor(
    inputs: Bootstrapped<InputCollection>,
    touch: Bootstrapped<TouchState>,
    driver_version: (u8, u8, u8),
    id: DeviceId,
    phys: Option<&str>,
    startup_focus: StartupFocus,
    joystick_invert_y: bool,
) -> (m: MonitorBootstrap)
    ensures
        m.inputs == inputs.value,
        m.touch == touch.value,
        m.state.counts == (Counts {
            abs: inputs.value.buckets.absolute@.len() as usize,
            rel: inputs.value.buckets.relative@.len() as usize,
            btn: inputs.value.buckets.buttons@.len() as usize,
        }),
        m.state.info_lines@.len() == spec_device_info_lines(
            driver_version,
            id,
            match phys {
                Some(p) => Some(p@),
                None => None,
            },
            inputs.startup_warnings@ + touch.startup_warnings@,
        ).len(),
        forall|i: int|
            0 <= i < m.state.info_lines@.len() ==> #[trigger] m.state.info_lines@[i]@
                == spec_device_info_lines(
                driver_version,
                id,
                match phys {
                    Some(p) => Some(p@),
                    None => None,
                },
                inputs.startup_warnings@ + touch.startup_warnings@,
            )[i],
        m.state.active_popup == ActivePopup::Closed,
        m.state.focus == spec_initial_focus(m.state.counts, startup_focus),
        m.state.axis_scroll == 0,
        m.state.button_row_scroll == 0,
        m.state.joystick_invert_y == joystick_invert_y,
{
    let (collection, mut warnings) = inputs.into_parts();
    let (touch_state, touch_warnings) = touch.into_parts();
    let ghost first = warnings@;
    let mut i: usize = 0;
    while i < touch_warnings.len()
        invariant
            i <= touch_warnings@.len(),
            warnings@ == first + touch_warnings@.take(i as int),
        decreases touch_warnings@.len() - i,
    {
        warnings.push(touch_warnings[i].clone());
        assert(warnings@ =~= first + touch_warnings@.take(i + 1));
        i = i + 1;
    }
    assert(touch_warnings@.take(touch_warnings@.len() as int) =~= touch_warnings@);
    let counts = Counts::new(
        collection.absolute_inputs().len(),
        collection.relative_inputs().len(),
        collection.button_inputs().len(),
    );
    let info_lines = device_info_lines(driver_version, id, phys, warnings.as_slice());
    let state = MonitorState::new(counts, info_lines, startup_focus, joystick_invert_y);
    MonitorBootstrap { inputs: collection, touch: touch_state, state }
}

/// The touch contact keys are exactly the touch key (0x14a) and the
/// finger-count tool keys: one finger (0x145), two (0x14d), three (0x14e),
/// four (0x14f) and five (0x148).
pub proof fn law_touch_contact_keys_are_the_finger_keys(code: u16)
    ensures
        spec_is_touch_contact_button(code) <==> (code == 0x14a || code == 0x145 || code == 0x14d || code == 0x14e
            || code == 0x14f || code == 0x148),
{
}

/// The buttons collected from a device's keys are its keys without the
/// touch and finger-count keys: every collected button is one of the keys
/// and none is 0x14a, 0x145, 0x14d, 0x14e, 0x14f or 0x148, and every other
/// key is collected.
pub proof fn law_buttons_leave_out_finger_keys(codes: Seq<u16>)
    ensures
        forall|i: int|
            0 <= i < button_codes(codes).len() ==> {
                let c = #[trigger] button_codes(codes)[i];
                &&& codes.contains(c)
                &&& !(c == 0x14a || c == 0x145 || c == 0x14d || c == 0x14e || c == 0x14f || c == 0x148)
            },
        forall|c: u16|
            #[trigger] codes.contains(c) && !(c == 0x14a || c == 0x145 || c == 0x14d || c == 0x14e || c == 0x14f
                || c == 0x148) ==> button_codes(codes).contains(c),
    decreases codes.len(),
{
    if codes.len() > 0 {
        let rest = codes.drop_last();
        law_buttons_leave_out_finger_keys(rest);
        let b = button_codes(codes);
        let br = button_codes(rest);
        assert forall|i: int| 0 <= i < b.len() implies {
            let c = #[trigger] b[i];
            &&& codes.contains(c)
            &&& !(c == 0x14a || c == 0x145 || c == 0x14d || c == 0x14e || c == 0x14f || c == 0x148)
        } by {
            if i < br.len() {
                assert(b[i] == br[i]);
                let j = choose|j: int| 0 <= j < rest.len() && rest[j] == br[i];
                assert(codes[j] == rest[j]);
            } else {
                assert(b[i] == codes.last());
                assert(codes[codes.len() - 1] == codes.last());
            }
        }
        assert forall|c: u16|
            #[trigger] codes.contains(c) && !(c == 0x14a || c == 0x145 || c == 0x14d || c == 0x14e || c == 0x14f
                || c == 0x148) implies b.contains(c) by {
            let j = choose|j: int| 0 <= j < codes.len() && codes[j] == c;
            if j < codes.len() - 1 {
                assert(rest[j] == c);
                assert(rest.contains(c));
                let k = choose|k: int| 0 <= k < br.len() && br[k] == c;
                assert(b[k] == c);
            } else {
                assert(b[b.len() - 1] == c);
            }
        }
    }
}

} // verus!
