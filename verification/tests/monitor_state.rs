use evtr::monitor::config::StartupFocus;
use evtr::monitor::plan::{synced_focus, Counts, NavigationContext, ScrollBounds, ScrollState};
use evtr::monitor::state::{
    next_focus, step_offset, toggled_popup, ActivePopup, Focus, MonitorState, ScrollCursor,
    ScrollLimits,
};

struct NavSpec {
    focus: Focus,
    axis_scroll: usize,
    button_row_scroll: usize,
    axes_max: usize,
    button_row_max_start: usize,
    axes_overflow: bool,
    buttons_overflow: bool,
    focusable: bool,
}

fn nav(spec: NavSpec) -> NavigationContext {
    NavigationContext::new(
        spec.focus,
        ScrollState { axis: spec.axis_scroll, button_row: spec.button_row_scroll },
        ScrollBounds::new(
            spec.axes_max,
            spec.button_row_max_start,
            spec.axes_overflow,
            spec.buttons_overflow,
        ),
        spec.focusable,
    )
}

fn navigation(focus: Focus, focusable: bool) -> NavigationContext {
    NavigationContext::new(
        focus,
        ScrollState { axis: 0, button_row: 0 },
        ScrollBounds::new(0, 0, false, false),
        focusable,
    )
}

fn small_state() -> MonitorState {
    MonitorState::new(Counts::new(1, 0, 1), Vec::new(), StartupFocus::Auto, false)
}

#[test]
fn counts_total_axes_tracks_absolute_and_relative_inputs() {
    assert_eq!(Counts::new(2, 3, 4).total_axes(), 5);
}

#[test]
fn synced_focus_forces_the_remaining_visible_section() {
    assert_eq!(synced_focus(Focus::Axes, true, true), Focus::Axes);
    assert_eq!(synced_focus(Focus::Axes, true, false), Focus::Axes);
    assert_eq!(synced_focus(Focus::Axes, false, true), Focus::Buttons);
    assert_eq!(synced_focus(Focus::Buttons, false, false), Focus::Buttons);
}

#[test]
fn new_prefers_axes_focus_when_any_axes_exist() {
    let state = MonitorState::new(
        Counts::new(1, 0, 3),
        vec!["info".to_string()],
        StartupFocus::Auto,
        true,
    );

    assert_eq!(state.focus, Focus::Axes);
}

#[test]
fn new_falls_back_to_buttons_focus_when_no_axes_exist() {
    let state = MonitorState::new(
        Counts::new(0, 0, 3),
        vec!["info".to_string()],
        StartupFocus::Auto,
        true,
    );

    assert_eq!(state.focus, Focus::Buttons);
}

#[test]
fn new_preserves_info_lines_and_defaults() {
    let state = MonitorState::new(
        Counts::new(0, 1, 2),
        vec!["name: pad".to_string(), "path: /dev/input/event3".to_string()],
        StartupFocus::Auto,
        true,
    );

    assert_eq!(state.info_lines(), &["name: pad", "path: /dev/input/event3"]);
    assert_eq!(state.active_popup, ActivePopup::Closed);
    assert_eq!(state.axis_scroll, 0);
    assert_eq!(state.button_row_scroll, 0);
    assert!(state.joystick_invert_y());
}

#[test]
fn new_honors_explicit_button_focus() {
    let state = MonitorState::new(
        Counts::new(2, 0, 2),
        vec!["info".to_string()],
        StartupFocus::Buttons,
        false,
    );

    assert_eq!(state.focus, Focus::Buttons);
    assert!(!state.joystick_invert_y());
}

#[test]
fn toggled_popup_switches_between_help_and_info() {
    assert_eq!(toggled_popup(ActivePopup::Closed, ActivePopup::Info), ActivePopup::Info);
    assert_eq!(toggled_popup(ActivePopup::Info, ActivePopup::Info), ActivePopup::Closed);
    assert_eq!(toggled_popup(ActivePopup::Help, ActivePopup::Info), ActivePopup::Info);
}

#[test]
fn next_focus_cycles_only_when_both_sections_are_focusable() {
    assert_eq!(next_focus(Focus::Axes, true), Focus::Buttons);
    assert_eq!(next_focus(Focus::Buttons, true), Focus::Axes);
    assert_eq!(next_focus(Focus::Axes, false), Focus::Axes);
}

#[test]
fn toggle_help_closes_when_called_twice() {
    let mut state = small_state();

    state.toggle_help();
    assert_eq!(state.active_popup(), ActivePopup::Help);

    state.toggle_help();
    assert_eq!(state.active_popup(), ActivePopup::Closed);
}

#[test]
fn toggle_info_closes_when_called_twice() {
    let mut state = small_state();

    state.toggle_info();
    assert_eq!(state.active_popup(), ActivePopup::Info);

    state.toggle_info();
    assert_eq!(state.active_popup(), ActivePopup::Closed);
}

#[test]
fn toggle_help_and_info_replace_each_other() {
    let mut state = small_state();

    state.toggle_help();
    assert_eq!(state.active_popup(), ActivePopup::Help);

    state.toggle_info();
    assert_eq!(state.active_popup(), ActivePopup::Info);

    state.toggle_help();
    assert_eq!(state.active_popup(), ActivePopup::Help);
}

#[test]
fn focus_prev_uses_the_same_cycle_behavior_as_focus_next() {
    let mut state = small_state();

    state.focus_prev(navigation(Focus::Axes, true));
    assert_eq!(state.focus(), Focus::Buttons);

    state.focus_prev(navigation(Focus::Buttons, true));
    assert_eq!(state.focus(), Focus::Axes);

    state.focus_prev(navigation(Focus::Axes, false));
    assert_eq!(state.focus(), Focus::Axes);
}

#[test]
fn step_offset_moves_only_when_overflow_is_enabled() {
    assert_eq!(step_offset(2, 1, false, 10), 2);
    assert_eq!(step_offset(2, 1, true, 10), 3);
    assert_eq!(step_offset(0, -1, true, 10), 0);
}

#[test]
fn scroll_cursor_end_only_updates_the_focused_target() {
    let cursor = ScrollCursor { axis: 1, button_row: 2 };
    let limits = ScrollLimits {
        axes_max: 7,
        button_row_max_start: 5,
        axes_overflow: true,
        buttons_overflow: true,
    };

    assert_eq!(cursor.end(Focus::Axes, limits), ScrollCursor { axis: 7, button_row: 2 });
    assert_eq!(cursor.end(Focus::Buttons, limits), ScrollCursor { axis: 1, button_row: 5 });
}

#[test]
fn scroll_cursor_home_only_updates_the_focused_target() {
    let cursor = ScrollCursor { axis: 3, button_row: 4 };

    assert_eq!(cursor.home(Focus::Axes), ScrollCursor { axis: 0, button_row: 4 });
    assert_eq!(cursor.home(Focus::Buttons), ScrollCursor { axis: 3, button_row: 0 });
}

#[test]
fn scroll_cursor_step_only_updates_the_focused_target() {
    let cursor = ScrollCursor { axis: 1, button_row: 2 };
    let limits = ScrollLimits {
        axes_max: 4,
        button_row_max_start: 5,
        axes_overflow: true,
        buttons_overflow: true,
    };

    assert_eq!(cursor.step(Focus::Axes, 1, limits), ScrollCursor { axis: 2, button_row: 2 });
    assert_eq!(cursor.step(Focus::Buttons, 1, limits), ScrollCursor { axis: 1, button_row: 3 });
}

#[test]
fn scroll_page_zero_is_a_no_op() {
    let mut state = small_state();
    state.axis_scroll = 2;
    state.button_row_scroll = 3;

    state.scroll_page(
        0,
        nav(NavSpec {
            focus: Focus::Axes,
            axis_scroll: 2,
            button_row_scroll: 3,
            axes_max: 7,
            button_row_max_start: 5,
            axes_overflow: true,
            buttons_overflow: true,
            focusable: true,
        }),
        10,
    );

    assert_eq!(state.axis_scroll(), 2);
    assert_eq!(state.button_row_scroll(), 3);
}

#[test]
fn sync_from_navigation_updates_focus_and_scroll_positions() {
    let mut state = small_state();

    state.sync_from_navigation(nav(NavSpec {
        focus: Focus::Buttons,
        axis_scroll: 4,
        button_row_scroll: 2,
        axes_max: 7,
        button_row_max_start: 5,
        axes_overflow: true,
        buttons_overflow: true,
        focusable: true,
    }));

    assert_eq!(state.focus, Focus::Buttons);
    assert_eq!(state.axis_scroll(), 4);
    assert_eq!(state.button_row_scroll(), 2);
}

#[test]
fn scroll_page_is_as_far_as_repeated_steps_and_stops_at_the_end() {
    let navigation = nav(NavSpec {
        focus: Focus::Axes,
        axis_scroll: 0,
        button_row_scroll: 0,
        axes_max: 7,
        button_row_max_start: 5,
        axes_overflow: true,
        buttons_overflow: true,
        focusable: true,
    });
    let mut paged = small_state();
    let mut stepped = small_state();

    paged.scroll_page(1, navigation, 3);
    for _ in 0..3 {
        stepped.scroll_by(1, navigation);
    }
    assert_eq!(paged.axis_scroll(), 3);
    assert_eq!(paged.axis_scroll(), stepped.axis_scroll());

    paged.scroll_page(1, navigation, 10);
    assert_eq!(paged.axis_scroll(), 7);
    paged.scroll_page(-1, navigation, 10);
    assert_eq!(paged.axis_scroll(), 0);
    assert_eq!(paged.button_row_scroll(), 0);
}

#[test]
fn scroll_does_nothing_without_overflow() {
    let mut state = small_state();
    let navigation = nav(NavSpec {
        focus: Focus::Buttons,
        axis_scroll: 0,
        button_row_scroll: 0,
        axes_max: 3,
        button_row_max_start: 3,
        axes_overflow: true,
        buttons_overflow: false,
        focusable: true,
    });
    state.scroll_by(1, navigation);
    state.scroll_page(1, navigation, 5);
    assert_eq!(state.button_row_scroll(), 0);
}
