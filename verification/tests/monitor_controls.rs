use evtr::keys::{KeyCode, KeyEvent, KeyModifiers};
use evtr::monitor::config::StartupFocus;
use evtr::monitor::controls::{apply_command, command_for, help_lines, Command, MonitorExit};
use evtr::monitor::model::{DeviceInput, InputCollection, InputKind};
use evtr::monitor::plan::{Counts, NavigationContext, ScrollBounds, ScrollState};
use evtr::monitor::state::{ActivePopup, Focus, MonitorState};

fn key(code: KeyCode) -> KeyEvent {
    KeyEvent::new(code, KeyModifiers::none())
}

fn shifted_char(c: char) -> KeyEvent {
    KeyEvent::new(KeyCode::Char(c), KeyModifiers::shift())
}

fn ctrl_char(c: char) -> KeyEvent {
    KeyEvent::new(KeyCode::Char(c), KeyModifiers::ctrl())
}

fn navigation(focus: Focus, focusable: bool) -> NavigationContext {
    NavigationContext::new(
        focus,
        ScrollState { axis: 1, button_row: 1 },
        ScrollBounds::new(4, 3, true, true),
        focusable,
    )
}

fn monitor_state() -> MonitorState {
    MonitorState::new(
        Counts::new(2, 0, 6),
        vec!["info".to_string()],
        StartupFocus::Auto,
        true,
    )
}

fn relative_input(name: &str, value: i32) -> DeviceInput {
    DeviceInput {
        name: name.to_string(),
        input_type: InputKind::Relative(value),
    }
}

fn empty_inputs() -> InputCollection {
    InputCollection::from_entries(Vec::new(), Vec::new(), Vec::new())
}

#[test]
fn command_for_ctrl_c_exits_from_any_popup_state() {
    for popup in [ActivePopup::Closed, ActivePopup::Info, ActivePopup::Help] {
        assert_eq!(command_for(ctrl_char('c'), popup), Command::ExitApp);
    }
}

#[test]
fn command_for_maps_normal_mode_bindings() {
    assert_eq!(
        command_for(key(KeyCode::Char('r')), ActivePopup::Closed),
        Command::Reset
    );
    assert_eq!(
        command_for(key(KeyCode::Home), ActivePopup::Closed),
        Command::Home
    );
    assert_eq!(
        command_for(shifted_char('G'), ActivePopup::Closed),
        Command::End
    );
    assert_eq!(
        command_for(key(KeyCode::Char('k')), ActivePopup::Closed),
        Command::Scroll(-1)
    );
    assert_eq!(
        command_for(key(KeyCode::Char('j')), ActivePopup::Closed),
        Command::Scroll(1)
    );
}

#[test]
fn apply_command_updates_scroll_focus_popup_and_invert_state() {
    let mut state = monitor_state();
    let mut inputs =
        InputCollection::from_entries(Vec::new(), vec![(1, relative_input("rel_x", 3))], vec![]);
    let navigation = navigation(Focus::Axes, true);

    assert!(state.joystick_invert_y());
    apply_command(Command::ToggleInvertY, &mut state, &mut inputs, navigation);
    assert!(!state.joystick_invert_y());

    apply_command(Command::ToggleInfo, &mut state, &mut inputs, navigation);
    assert_eq!(state.active_popup(), ActivePopup::Info);

    apply_command(Command::ToggleHelp, &mut state, &mut inputs, navigation);
    assert_eq!(state.active_popup(), ActivePopup::Help);
}

#[test]
fn apply_command_reset_clears_relative_axes() {
    let mut state = monitor_state();
    let mut inputs = InputCollection::from_entries(
        Vec::new(),
        vec![
            (1, relative_input("rel_x", 3)),
            (2, relative_input("rel_y", -2)),
        ],
        Vec::new(),
    );

    apply_command(
        Command::Reset,
        &mut state,
        &mut inputs,
        navigation(Focus::Axes, false),
    );

    assert_eq!(inputs.relative_inputs()[0].input_type, InputKind::Relative(0));
    assert_eq!(inputs.relative_inputs()[1].input_type, InputKind::Relative(0));
}

#[test]
fn controls_help_lines_reflect_default_bindings() {
    let lines = help_lines();
    assert!(lines.iter().any(|line| line == "Exit: Ctrl-c"));
    assert!(lines.iter().any(|line| line == "Scroll up: Up, k"));
}

#[test]
fn apply_command_returns_requested_exit_variant() {
    let mut state = monitor_state();
    let mut inputs = empty_inputs();

    assert_eq!(
        apply_command(
            Command::BackToSelector,
            &mut state,
            &mut inputs,
            navigation(Focus::Axes, false),
        ),
        Some(MonitorExit::BackToSelector)
    );
    assert_eq!(
        apply_command(
            Command::ExitApp,
            &mut state,
            &mut inputs,
            navigation(Focus::Axes, false),
        ),
        Some(MonitorExit::ExitApp)
    );
}

#[test]
fn apply_command_scroll_moves_the_focused_section_only() {
    let mut state = monitor_state();
    let mut inputs = empty_inputs();
    let nav = navigation(Focus::Buttons, true);

    apply_command(Command::Scroll(1), &mut state, &mut inputs, nav);
    assert_eq!(state.button_row_scroll(), 1);
    assert_eq!(state.axis_scroll(), 0);

    apply_command(Command::End, &mut state, &mut inputs, nav);
    assert_eq!(state.button_row_scroll(), 3);

    apply_command(Command::Home, &mut state, &mut inputs, nav);
    assert_eq!(state.button_row_scroll(), 0);
}

#[test]
fn command_for_in_a_popup_only_closes_or_exits() {
    assert_eq!(
        command_for(key(KeyCode::Char('i')), ActivePopup::Info),
        Command::ToggleInfo
    );
    assert_eq!(
        command_for(key(KeyCode::Char('j')), ActivePopup::Info),
        Command::NoOp
    );
    assert_eq!(
        command_for(key(KeyCode::Esc), ActivePopup::Help),
        Command::NoOp
    );
    assert_eq!(
        command_for(key(KeyCode::Esc), ActivePopup::Closed),
        Command::BackToSelector
    );
    assert_eq!(
        command_for(KeyEvent::new(KeyCode::Char('r'), KeyModifiers::alt()), ActivePopup::Closed),
        Command::NoOp
    );
}
