use evdev::{AbsoluteAxisCode, BusType, KeyCode, RelativeAxisCode};
use evtr::monitor::bootstrap::{
    absolute_name, absolute_state_from_snapshot, assemble_monitor, button_name,
    collect_device_inputs, device_info_lines, inputs_from_entries, is_key_pressed,
    is_touch_contact_button, relative_name, strip_btn_prefix, touch_from_inspection, Bootstrapped,
    DeviceId,
};
use evtr::monitor::config::{self, StartupFocus};
use evtr::monitor::model::{AbsoluteState, AxisSnapshot, InputKind};
use evtr::monitor::state::Focus;

#[test]
fn device_info_lines_include_metadata_and_startup_warnings() {
    let lines = device_info_lines(
        (1, 2, 3),
        DeviceId::new(BusType::BUS_USB.0, 0x1234, 0xabcd, 0x0001),
        Some("usb-1/input0"),
        &["touch bounds unavailable".to_string()],
    );

    assert_eq!(
        lines,
        vec![
            "Input driver version: 1.2.3".to_string(),
            "Input device ID: bus 0x3, vendor 0x1234, product 0xabcd, version 0x1".to_string(),
            "Input device phys: usb-1/input0".to_string(),
            "Startup warning: touch bounds unavailable".to_string(),
        ]
    );
}

#[test]
fn device_info_lines_use_na_for_missing_phys_path() {
    let lines = device_info_lines((0, 0, 1), DeviceId::new(BusType::BUS_VIRTUAL.0, 0, 0, 0), None, &[]);

    assert_eq!(lines[2], "Input device phys: n/a");
}

#[test]
fn device_info_lines_append_multiple_warnings_in_order_after_metadata() {
    let lines = device_info_lines(
        (2, 3, 4),
        DeviceId::new(BusType::BUS_USB.0, 0x1, 0x2, 0x3),
        Some("usb-2/input0"),
        &["touch bounds unavailable".to_string(), "slot limit inferred".to_string()],
    );

    assert_eq!(
        lines,
        vec![
            "Input driver version: 2.3.4".to_string(),
            "Input device ID: bus 0x3, vendor 0x1, product 0x2, version 0x3".to_string(),
            "Input device phys: usb-2/input0".to_string(),
            "Startup warning: touch bounds unavailable".to_string(),
            "Startup warning: slot limit inferred".to_string(),
        ]
    );
}

#[test]
fn absolute_state_from_snapshot_uses_kernel_values() {
    assert_eq!(
        absolute_state_from_snapshot(Some(AxisSnapshot { min: -10, max: 20, value: 7 })),
        AbsoluteState::kernel(-10, 20, 7)
    );
}

#[test]
fn absolute_state_from_snapshot_uses_explicit_fallback_defaults() {
    assert_eq!(
        absolute_state_from_snapshot(None),
        AbsoluteState::fallback(config::DEFAULT_AXIS_MIN, config::DEFAULT_AXIS_MAX, 0)
    );
}

#[test]
fn is_key_pressed_reads_initial_button_state() {
    let keys = vec![KeyCode::BTN_SOUTH.0];

    assert!(is_key_pressed(KeyCode::BTN_SOUTH.0, Some(&keys)));
    assert!(!is_key_pressed(KeyCode::BTN_EAST.0, Some(&keys)));
    assert!(!is_key_pressed(KeyCode::BTN_SOUTH.0, None));
}

#[test]
fn is_touch_contact_button_filters_touch_contact_keys() {
    assert!(is_touch_contact_button(KeyCode::BTN_TOUCH.0));
    assert!(is_touch_contact_button(KeyCode::BTN_TOOL_FINGER.0));
    assert!(is_touch_contact_button(KeyCode::BTN_TOOL_DOUBLETAP.0));
    assert!(!is_touch_contact_button(KeyCode::BTN_LEFT.0));
    assert!(!is_touch_contact_button(KeyCode::BTN_SOUTH.0));
}

#[test]
fn input_names_come_from_the_lowercased_code_names() {
    assert_eq!(absolute_name(AbsoluteAxisCode::ABS_X.0), "abs_x");
    assert_eq!(relative_name(RelativeAxisCode::REL_WHEEL.0), "rel_wheel");
    assert_eq!(button_name(KeyCode::BTN_SOUTH.0), "south");
    assert_eq!(button_name(KeyCode::KEY_A.0), "key_a");
    assert_eq!(strip_btn_prefix("btn_left"), "left");
    assert_eq!(strip_btn_prefix("btn"), "btn");
    assert_eq!(strip_btn_prefix("key_btn_x"), "key_btn_x");
}

#[test]
fn collect_device_inputs_gathers_every_kind_and_the_load_warnings() {
    let mut table = vec![AxisSnapshot { min: 0, max: 0, value: 0 }; 8];
    table[AbsoluteAxisCode::ABS_X.0 as usize] = AxisSnapshot { min: -5, max: 5, value: 2 };
    let absolute = [AbsoluteAxisCode::ABS_X.0, 0x20];
    let relative = [RelativeAxisCode::REL_X.0];
    let keys = [KeyCode::BTN_SOUTH.0, KeyCode::BTN_TOUCH.0, KeyCode::BTN_EAST.0];

    let entries = collect_device_inputs(
        Some(&absolute),
        Some(&relative),
        Some(&keys),
        Some(Ok(table)),
        Some(Err("no access".to_string())),
    );

    assert_eq!(entries.absolute.len(), 2);
    assert_eq!(entries.absolute[0].0, AbsoluteAxisCode::ABS_X.0);
    assert_eq!(
        entries.absolute[0].1.input_type,
        InputKind::Absolute(AbsoluteState::kernel(-5, 5, 2))
    );
    assert_eq!(
        entries.absolute[1].1.input_type,
        InputKind::Absolute(AbsoluteState::fallback(config::DEFAULT_AXIS_MIN, config::DEFAULT_AXIS_MAX, 0))
    );
    assert_eq!(entries.relative[0].1.input_type, InputKind::Relative(0));
    assert_eq!(
        entries.buttons.iter().map(|(code, _)| *code).collect::<Vec<_>>(),
        vec![KeyCode::BTN_SOUTH.0, KeyCode::BTN_EAST.0]
    );
    assert_eq!(entries.buttons[0].1.name, "south");
    assert_eq!(entries.buttons[0].1.input_type, InputKind::Button(false));
    assert_eq!(
        entries.startup_warnings,
        vec!["unable to load key/button state; buttons start released until events arrive: no access".to_string()]
    );
}

#[test]
fn assemble_monitor_counts_inputs_and_lists_all_warnings() {
    let entries = collect_device_inputs(
        Some(&[AbsoluteAxisCode::ABS_X.0]),
        None,
        Some(&[KeyCode::BTN_SOUTH.0]),
        Some(Err("busy".to_string())),
        Some(Ok(vec![KeyCode::BTN_SOUTH.0])),
    );
    let inputs = inputs_from_entries(entries);
    let touch = touch_from_inspection(None);
    let monitor = assemble_monitor(
        inputs,
        touch,
        (1, 0, 1),
        DeviceId::new(3, 1, 2, 3),
        None,
        StartupFocus::Auto,
        false,
    );

    assert_eq!(monitor.state.counts.abs, 1);
    assert_eq!(monitor.state.counts.btn, 1);
    assert_eq!(monitor.state.focus, Focus::Axes);
    assert_eq!(monitor.state.info_lines.len(), 4);
    assert_eq!(
        monitor.state.info_lines[3],
        "Startup warning: unable to load absolute axis state; using fallback defaults until events arrive: busy"
    );
    assert_eq!(monitor.inputs.button_inputs()[0].input_type, InputKind::Button(true));
    assert!(!monitor.touch.is_touch_device());
}

#[test]
fn bootstrapped_keeps_value_and_warnings() {
    let (value, warnings) = Bootstrapped::with_warnings(7, vec!["w".to_string()]).into_parts();
    assert_eq!(value, 7);
    assert_eq!(warnings, vec!["w".to_string()]);
    assert!(Bootstrapped::new(1).into_parts().1.is_empty());
}
