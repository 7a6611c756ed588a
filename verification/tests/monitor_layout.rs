use evtr::monitor::config;
use evtr::monitor::layout::{
    box_layout, layout_fits_check, lower_remaining, place_top_row, plan_top_row, plan_touch, AxesPanel, BoxMinimums, ButtonsPanel,
    HatPanel, JoystickPanel, LayoutBudget, LayoutRequest, LowerSectionLayout, TopRowLayout,
    TopRowRequest, TouchAllocation, TouchPanel,
};
use evtr::monitor::render::frame::main_layout;
use evtr::rect::Rect;

fn request(
    joystick: Option<JoystickPanel>,
    hat: Option<HatPanel>,
    touch: Option<TouchPanel>,
    axes: Option<AxesPanel>,
    buttons: Option<ButtonsPanel>,
) -> LayoutRequest {
    LayoutRequest::new(joystick, hat, touch, axes, buttons)
}

fn dual_top_row_request() -> LayoutRequest {
    LayoutRequest::new(
        Some(JoystickPanel::new(1)),
        Some(HatPanel::new()),
        None,
        None,
        None,
    )
}

#[test]
fn main_layout_reserves_one_header_row_and_the_remaining_body() {
    let [header, body] = main_layout(Rect::new(0, 0, 20, 8));

    assert_eq!(header, Rect::new(0, 0, 20, 1));
    assert_eq!(body, Rect::new(0, 1, 20, 7));
}

#[test]
fn box_layout_gives_small_remaining_space_to_buttons_first() {
    let area = Rect::new(0, 0, 60, 1);

    let layout = box_layout(
        area,
        request(None, None, None, Some(AxesPanel::new()), Some(ButtonsPanel::new())),
    );

    assert!(layout.axes_box.is_none());
    assert_eq!(layout.buttons_box, Some(area));
}

#[test]
fn box_layout_drops_touch_when_it_cannot_fit_with_axes_and_buttons() {
    let area = Rect::new(0, 0, 60, config::TOUCHPAD_MIN_HEIGHT + 2);

    let layout = box_layout(
        area,
        request(
            None,
            None,
            Some(TouchPanel::new()),
            Some(AxesPanel::new()),
            Some(ButtonsPanel::new()),
        ),
    );

    assert!(layout.touch_box.is_none());
    assert!(layout.axes_box.is_some());
    assert!(layout.buttons_box.is_some());
}

#[test]
fn box_layout_keeps_joystick_and_hat_side_by_side_when_both_fit() {
    let area = Rect::new(0, 0, 60, 12);

    let layout = box_layout(
        area,
        request(Some(JoystickPanel::new(1)), Some(HatPanel::new()), None, None, None),
    );

    assert!(layout.joystick_box.is_some());
    assert!(layout.hat_box.is_some());
}

#[test]
fn box_layout_falls_back_to_joystick_when_hat_cannot_fit() {
    let area = Rect::new(0, 0, 12, 6);

    let layout = box_layout(
        area,
        request(Some(JoystickPanel::new(1)), Some(HatPanel::new()), None, None, None),
    );

    assert!(layout.joystick_box.is_some());
    assert!(layout.hat_box.is_none());
}

#[test]
fn touch_allocation_uses_full_remaining_height_when_it_is_the_only_section() {
    let request = request(None, None, Some(TouchPanel::new()), None, None);
    let minimums = BoxMinimums::for_request(request);

    let touch = plan_touch(LayoutBudget::new(12), request, minimums);

    assert_eq!(touch, TouchAllocation::shown(12));
}

#[test]
fn lower_section_layout_prioritizes_buttons_when_budget_is_tight() {
    let request = request(None, None, None, Some(AxesPanel::new()), Some(ButtonsPanel::new()));
    let minimums = BoxMinimums::for_request(request);

    let lower = LowerSectionLayout::plan(1, request, minimums, 75);

    assert_eq!(lower.axes_height(), 0);
    assert_eq!(lower.buttons_height(), 1);
}

#[test]
fn lower_section_layout_respects_axes_box_percent() {
    let request = request(None, None, None, Some(AxesPanel::new()), Some(ButtonsPanel::new()));
    let minimums = BoxMinimums::for_request(request);

    let lower = LowerSectionLayout::plan(20, request, minimums, 60);

    assert_eq!(lower.axes_height(), 12);
    assert_eq!(lower.buttons_height(), 8);
}

#[test]
fn plan_top_row_prefers_side_by_side_when_both_fit() {
    let area = Rect::new(0, 0, 60, 12);
    let minimums = BoxMinimums::for_request(dual_top_row_request());

    let plan = plan_top_row(area, 1, minimums, TopRowRequest::Both, 70);

    assert!(matches!(plan, TopRowLayout::Split { height, .. } if height > 0));
}

#[test]
fn plan_top_row_prefers_hat_when_only_hat_fits_split_layout() {
    let area = Rect::new(0, 0, 20, 12);
    let minimums = BoxMinimums::for_request(dual_top_row_request());

    let plan = plan_top_row(area, 2, minimums, TopRowRequest::Both, 70);

    assert!(matches!(plan, TopRowLayout::Hat { height } if height > 0));
}

#[test]
fn plan_top_row_falls_back_to_joystick_when_neither_split_widget_fits() {
    let area = Rect::new(0, 0, 12, 6);
    let minimums = BoxMinimums::for_request(dual_top_row_request());

    let plan = plan_top_row(area, 1, minimums, TopRowRequest::Both, 70);

    assert!(matches!(plan, TopRowLayout::Joystick { height } if height > 0));
}

#[test]
fn place_top_row_respects_joystick_hat_split_percent() {
    let area = Rect::new(0, 0, 40, 8);
    let layout = TopRowLayout::Split { height: 6, gap: 0 };
    let mut wide_cursor_y = area.y;
    let mut narrow_cursor_y = area.y;

    let (wide_joystick, wide_hat) = place_top_row(area, &mut wide_cursor_y, layout, 80);
    let (narrow_joystick, narrow_hat) = place_top_row(area, &mut narrow_cursor_y, layout, 60);

    assert!(wide_joystick.unwrap().width > narrow_joystick.unwrap().width);
    assert!(wide_hat.unwrap().width < narrow_hat.unwrap().width);
}

#[test]
fn box_layout_stacks_boxes_inside_the_area() {
    let area = Rect::new(2, 3, 60, 40);
    let layout = box_layout(
        area,
        request(
            Some(JoystickPanel::new(2)),
            Some(HatPanel::new()),
            Some(TouchPanel::new()),
            Some(AxesPanel::new()),
            Some(ButtonsPanel::new()),
        ),
    );
    let boxes = [
        layout.joystick_box,
        layout.hat_box,
        layout.touch_box,
        layout.axes_box,
        layout.buttons_box,
    ];
    for b in boxes.iter().flatten() {
        assert!(b.x >= area.x && b.y >= area.y);
        assert!(b.x + b.width <= area.x + area.width);
        assert!(b.y + b.height <= area.y + area.height);
    }
    let touch = layout.touch_box.unwrap();
    let axes = layout.axes_box.unwrap();
    let buttons = layout.buttons_box.unwrap();
    assert!(touch.y + touch.height <= axes.y);
    assert!(axes.y + axes.height <= buttons.y);
}

#[test]
fn box_layout_leaves_unrequested_boxes_out() {
    let layout = box_layout(Rect::new(0, 0, 60, 30), request(None, None, None, Some(AxesPanel::new()), None));

    assert!(layout.joystick_box.is_none());
    assert!(layout.hat_box.is_none());
    assert!(layout.touch_box.is_none());
    assert!(layout.buttons_box.is_none());
    assert_eq!(layout.axes_box, Some(Rect::new(0, 0, 60, 30)));
}

#[test]
fn lower_remaining_leaves_the_rows_below_the_top_row_and_touchpad() {
    let axes_and_buttons = request(None, None, None, Some(AxesPanel::new()), Some(ButtonsPanel::new()));
    assert_eq!(lower_remaining(Rect::new(0, 0, 60, 20), axes_and_buttons), 20);

    let with_touch = request(None, None, Some(TouchPanel::new()), Some(AxesPanel::new()), None);
    assert_eq!(lower_remaining(Rect::new(0, 0, 60, 20), with_touch), 11);
}

#[test]
fn layout_fits_only_where_the_axes_share_is_representable() {
    let axes_and_buttons = request(None, None, None, Some(AxesPanel::new()), Some(ButtonsPanel::new()));
    let axes_only = request(None, None, None, Some(AxesPanel::new()), None);

    assert!(layout_fits_check(Rect::new(0, 0, 60, 1000), axes_and_buttons));
    assert!(!layout_fits_check(Rect::new(0, 0, 60, 2000), axes_and_buttons));
    assert!(layout_fits_check(Rect::new(0, 0, 60, 2000), axes_only));
}
