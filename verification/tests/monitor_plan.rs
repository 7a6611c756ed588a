use evtr::monitor::config::StartupFocus;
use evtr::monitor::controls::{command_can_apply, Command};
use evtr::monitor::layout::BoxLayout;
use evtr::monitor::plan::{
    build_render_plan, can_build_render_plan, clamp_scroll_state, Counts, NavigationContext, PlannedAreas,
    RenderPlan, ScrollBounds, ScrollState, VisibleCapacities,
};
use evtr::monitor::state::{Focus, MonitorState};
use evtr::monitor::view_model::{JoystickState, MonitorViewModel};
use evtr::rect::Rect;

fn axes_and_buttons_view() -> MonitorViewModel {
    MonitorViewModel {
        joystick: JoystickState { left: None, right: None },
        hat_state: None,
        axes_available: true,
        touch_enabled: false,
        buttons_available: true,
    }
}

#[test]
fn render_plan_splits_the_body_and_clamps_scroll_positions() {
    let mut state = MonitorState::new(Counts::new(4, 0, 6), Vec::new(), StartupFocus::Auto, false);
    state.axis_scroll = 3;
    state.button_row_scroll = 5;
    let view = axes_and_buttons_view();
    let content = Rect::new(0, 1, 60, 20);
    assert!(can_build_render_plan(content, &state, &view));

    let plan = build_render_plan(content, &state, &view);

    assert_eq!(plan.boxes.axes_box, Some(Rect::new(0, 1, 60, 12)));
    assert_eq!(plan.boxes.buttons_box, Some(Rect::new(0, 13, 60, 8)));
    assert_eq!(plan.areas.axes, Some(Rect::new(1, 2, 58, 10)));
    assert_eq!(plan.areas.buttons, Some(Rect::new(1, 14, 58, 6)));
    assert_eq!(plan.focus, Focus::Axes);
    assert_eq!(plan.effective_counts, Counts::new(4, 0, 6));
    assert_eq!(plan.scroll_bounds, ScrollBounds::new(0, 1, false, true));
    assert_eq!(plan.scroll, ScrollState { axis: 0, button_row: 1 });

    let navigation = plan.navigation_context();
    assert!(navigation.focusable());
    assert_eq!(navigation.scroll(), ScrollState { axis: 0, button_row: 1 });
}

#[test]
fn render_plan_moves_focus_to_the_buttons_when_axes_do_not_fit() {
    let state = MonitorState::new(Counts::new(4, 0, 6), Vec::new(), StartupFocus::Axes, false);
    let view = axes_and_buttons_view();
    let content = Rect::new(0, 1, 15, 20);

    let plan = build_render_plan(content, &state, &view);

    assert_eq!(plan.boxes.axes_box, None);
    assert_eq!(plan.boxes.buttons_box, Some(Rect::new(0, 1, 15, 20)));
    assert_eq!(plan.focus, Focus::Buttons);
    assert!(!plan.focusable());
    assert_eq!(plan.effective_counts, Counts::new(0, 0, 6));
    assert!(!plan.scroll_bounds.axes_overflow);
}

#[test]
fn visible_capacities_count_gauges_and_drawable_button_rows() {
    let areas = PlannedAreas {
        joystick: None,
        hat: None,
        axes: Some(Rect::new(1, 2, 58, 10)),
        touch: None,
        buttons: Some(Rect::new(1, 14, 58, 6)),
    };
    let capacities = VisibleCapacities::from_areas(Counts::new(4, 3, 6), &areas);

    assert_eq!(capacities, VisibleCapacities { axes: 5, button_rows: 1 });
}

#[test]
fn scroll_bounds_scroll_until_the_last_item_shows() {
    let bounds = ScrollBounds::from_capacities(Counts::new(4, 5, 7), 2, 1);

    assert_eq!(bounds, ScrollBounds::new(7, 2, true, true));
    assert_eq!(
        ScrollBounds::from_capacities(Counts::new(1, 1, 3), 2, 1),
        ScrollBounds::new(0, 0, false, false)
    );
}

#[test]
fn clamp_scroll_state_keeps_positions_within_bounds() {
    let bounds = ScrollBounds::new(4, 2, true, true);

    assert_eq!(clamp_scroll_state(9, 1, &bounds), ScrollState { axis: 4, button_row: 1 });
    assert_eq!(clamp_scroll_state(3, 8, &bounds), ScrollState { axis: 3, button_row: 2 });
}

#[test]
fn navigation_context_captures_navigation_fields_only() {
    let scroll_bounds = ScrollBounds::from_capacities(Counts::new(4, 5, 6), 5, 4);
    let plan = RenderPlan {
        focus: Focus::Buttons,
        scroll: ScrollState { axis: 2, button_row: 3 },
        effective_counts: Counts::new(4, 5, 6),
        scroll_bounds,
        boxes: BoxLayout {
            joystick_box: None,
            hat_box: None,
            axes_box: Some(Rect::zero()),
            touch_box: None,
            buttons_box: Some(Rect::zero()),
        },
        areas: PlannedAreas { joystick: None, hat: None, axes: None, touch: None, buttons: None },
    };

    let navigation = plan.navigation_context();

    assert_eq!(
        navigation,
        NavigationContext {
            focus: Focus::Buttons,
            scroll: ScrollState { axis: 2, button_row: 3 },
            scroll_bounds,
            focusable: true,
        }
    );
}

#[test]
fn planned_frame_admits_every_command_after_the_state_adopts_it() {
    let mut state = MonitorState::new(Counts::new(4, 3, 30), Vec::new(), StartupFocus::Auto, false);
    state.axis_scroll = usize::MAX;
    state.button_row_scroll = usize::MAX;
    let view = axes_and_buttons_view();
    let plan = build_render_plan(Rect::new(0, 1, 60, 12), &state, &view);
    let navigation = plan.navigation_context();
    state.sync_from_navigation(navigation);

    assert!(state.axis_scroll() <= plan.scroll_bounds.axes_max);
    for command in [
        Command::Scroll(1),
        Command::Scroll(-1),
        Command::Page(1),
        Command::Page(-1),
        Command::Home,
        Command::End,
        Command::FocusNext,
        Command::Reset,
    ] {
        assert!(command_can_apply(command, &state, navigation));
    }
}
