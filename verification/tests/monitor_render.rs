use evtr::monitor::config;
use evtr::monitor::render::axis::{axis_rows, bar_height_for, capacity_for, label_gauge_widths, split_label_gauge};
use evtr::monitor::render::buttons::{ButtonLayout, GridMetrics};
use evtr::monitor::render::frame::joystick_title;
use evtr::monitor::render::geometry::{
    canvas_range, centered_pair, clamp_i32, fit_centered_aspect_rect, inset_rect, invert_in_range,
};
use evtr::monitor::render::hat::{
    active_cells, base_cells, centered_indices, edge_indices, hat_grid, Edge,
};
use evtr::monitor::view_model::HatState;
use evtr::rect::Rect;

#[test]
fn bar_height_for_falls_back_to_one_when_rows_do_not_fit() {
    assert_eq!(bar_height_for(1, 10), 1);
}

#[test]
fn bar_height_for_takes_the_tallest_bars_that_fit() {
    assert_eq!(bar_height_for(12, 2), 5);
    assert_eq!(bar_height_for(8, 2), 3);
    assert_eq!(bar_height_for(4, 2), 1);
    assert_eq!(bar_height_for(9, 0), 1);
}

#[test]
fn capacity_for_returns_zero_for_too_narrow_or_empty_areas() {
    assert_eq!(capacity_for(Rect::new(0, 0, 0, 5), 3), 0);
    assert_eq!(capacity_for(Rect::new(0, 0, config::AXIS_MIN_WIDTH - 1, 5), 3), 0);
    assert_eq!(capacity_for(Rect::new(0, 0, config::AXIS_MIN_WIDTH, 0), 3), 0);
}

#[test]
fn capacity_for_counts_the_rows_that_fit() {
    assert_eq!(capacity_for(Rect::new(0, 0, 30, 12), 2), 2);
    assert_eq!(capacity_for(Rect::new(0, 0, 30, 5), 10), 2);
}

#[test]
fn label_gauge_widths_handle_very_narrow_area() {
    let (pad, label, gauge) = label_gauge_widths(config::AXIS_MIN_WIDTH);

    assert!(label <= config::AXIS_LABEL_MAX);
    assert!(gauge > 0);
    assert_eq!(pad, 1);
    assert_eq!((label, gauge), (6, 12));
}

#[test]
fn axis_rows_follow_the_scroll_window() {
    let rows = axis_rows(Rect::new(1, 2, 30, 8), 5, 10);

    assert_eq!(
        rows,
        vec![
            (1, Rect::new(1, 2, 30, 1)),
            (2, Rect::new(1, 4, 30, 1)),
            (3, Rect::new(1, 6, 30, 1)),
            (4, Rect::new(1, 8, 30, 1)),
        ]
    );
    assert!(axis_rows(Rect::new(0, 0, 30, 3), 0, 0).is_empty());
}

#[test]
fn button_layout_limits_visible_buttons_by_scroll_and_capacity() {
    let area = Rect::new(0, 0, config::buttons_per_row() as u16 * 6, config::BUTTON_HEIGHT + 2);
    let layout = ButtonLayout::new(area, config::buttons_per_row() * 3, 1)
        .expect("layout should be renderable");

    assert_eq!(layout.visible_count(), config::buttons_per_row());
    assert_eq!(layout.button_index(0), config::buttons_per_row());
}

#[test]
fn separator_positions_skip_missing_last_column() {
    let area = Rect::new(0, 0, config::buttons_per_row() as u16 * 3, 1);
    let layout = ButtonLayout::new(area, config::buttons_per_row() - 1, 0).expect("compact layout");

    assert_eq!(layout.separator_positions().len(), config::buttons_per_row() - 2);
}

#[test]
fn grid_metrics_detect_compact_single_line_layout() {
    let metrics = GridMetrics::for_area(Rect::new(0, 0, config::buttons_per_row() as u16 * 3, 1));

    assert!(metrics.compact);
    assert!(metrics.renderable());
    assert_eq!(metrics.max_rows, 1);
}

#[test]
fn button_areas_tile_the_grid() {
    let area = Rect::new(2, 1, 18, 8);
    let layout = ButtonLayout::new(area, 5, 0).unwrap();

    assert!(!layout.compact());
    assert_eq!(layout.visible_count(), 5);
    assert_eq!(layout.button_area(0), Rect::new(2, 2, 5, 3));
    assert_eq!(layout.button_area(4), Rect::new(8, 5, 5, 3));
    assert!(layout.separator_positions().is_empty());
    assert!(ButtonLayout::new(area, 0, 0).is_none());
    assert!(ButtonLayout::new(area, 5, 2).is_none());
}

#[test]
fn compact_separators_follow_each_button_but_the_last_of_a_row() {
    let layout = ButtonLayout::new(Rect::new(0, 0, 12, 2), 5, 0).unwrap();

    assert!(layout.compact());
    assert_eq!(layout.separator_positions(), vec![(3, 0), (7, 0), (3, 1)]);
}

#[test]
fn fit_centered_aspect_rect_centers_the_fitted_shape() {
    let rect = fit_centered_aspect_rect(Rect::new(2, 3, 11, 12), 2).unwrap();

    assert_eq!(rect, Rect::new(2, 6, 10, 5));
}

#[test]
fn fit_centered_aspect_rect_rejects_tiny_areas() {
    assert_eq!(fit_centered_aspect_rect(Rect::new(0, 0, 1, 10), 2), None);
    assert_eq!(fit_centered_aspect_rect(Rect::new(0, 0, 3, 10), 2), None);
    assert_eq!(fit_centered_aspect_rect(Rect::new(0, 0, 4, 4), 0), Some(Rect::new(0, 0, 4, 4)));
}

#[test]
fn centered_pair_drops_the_gap_when_width_is_tight() {
    let (left, right) = centered_pair(Rect::new(0, 0, 4, 6), 3);

    assert_eq!(left, Rect::new(0, 0, 2, 6));
    assert_eq!(right, Rect::new(2, 0, 2, 6));
}

#[test]
fn centered_pair_keeps_the_gap_when_there_is_room() {
    let (left, right) = centered_pair(Rect::new(1, 0, 11, 6), 2);

    assert_eq!(left, Rect::new(1, 0, 4, 6));
    assert_eq!(right, Rect::new(7, 0, 4, 6));
}

#[test]
fn inset_rect_preserves_rect_when_padding_would_collapse_it() {
    let rect = inset_rect(Rect::new(1, 2, 3, 3), 2);

    assert_eq!(rect, Rect::new(1, 2, 3, 3));
    assert_eq!(inset_rect(Rect::new(1, 2, 10, 6), 2), Rect::new(3, 4, 6, 2));
}

#[test]
fn canvas_range_and_invert_in_range_normalize_touch_coordinates() {
    let (min, max) = canvas_range((20, 20));

    assert_eq!((min, max), (20, 21));
    assert_eq!(invert_in_range(-5, 0, 20), 20);
    assert_eq!(invert_in_range(10, 0, 20), 10);
    assert_eq!(invert_in_range(30, 0, 20), 0);
}

#[test]
fn normalize_range_swaps_reversed_bounds() {
    assert_eq!(canvas_range((10, -5)), (-5, 10));
}

#[test]
fn normalize_range_expands_zero_span() {
    assert_eq!(canvas_range((7, 7)), (7, 8));
}

#[test]
fn canvas_range_saturates_at_the_top_of_the_range() {
    assert_eq!(canvas_range((i32::MAX, i32::MAX)), (i32::MAX, i32::MAX));
    assert_eq!(clamp_i32(5, 0, 3), 3);
    assert_eq!(clamp_i32(-5, 0, 3), 0);
}

#[test]
fn hat_indices_pick_edges_and_centres() {
    assert_eq!(edge_indices(10, 4, Edge::Start), vec![0, 1, 2, 3]);
    assert_eq!(edge_indices(10, 4, Edge::End), vec![6, 7, 8, 9]);
    assert_eq!(edge_indices(3, 4, Edge::End), vec![0, 1, 2]);
    assert_eq!(centered_indices(10, 2), vec![4, 5]);
    assert_eq!(centered_indices(0, 2), vec![0]);
}

#[test]
fn hat_cells_outline_and_light_the_pressed_side() {
    let base = base_cells(8, 8, 2, 2);
    assert_eq!(base.len(), 16);
    assert_eq!(&base[0..4], &[(0, 3), (0, 4), (1, 3), (1, 4)]);

    let rest = HatState { x: 0, y: 0 };
    assert!(active_cells(rest, 8, 8, 2, 2).is_empty());

    let up_right = HatState { x: 1, y: 1 };
    assert_eq!(
        active_cells(up_right, 8, 8, 2, 2),
        vec![(6, 3), (6, 4), (7, 3), (7, 4), (3, 6), (4, 6), (3, 7), (4, 7)]
    );
}

#[test]
fn hat_grid_uses_half_block_rows() {
    assert_eq!(hat_grid(Rect::new(0, 0, 20, 10)), Some((Rect::new(0, 0, 20, 10), 20, 20)));
    assert_eq!(hat_grid(Rect::new(0, 0, 3, 10)), None);
}

#[test]
fn joystick_title_counts_sticks() {
    assert_eq!(joystick_title(1), " Joystick ");
    assert_eq!(joystick_title(2), " Joysticks ");
}

#[test]
fn split_label_gauge_handles_very_narrow_area() {
    let (label, gauge) = split_label_gauge(Rect::new(0, 0, config::AXIS_MIN_WIDTH, 1));

    assert!(label.width <= config::AXIS_LABEL_MAX);
    assert!(gauge.width > 0);
    assert_eq!(label.height, 1);
}

#[test]
fn split_label_gauge_puts_the_label_on_the_middle_row() {
    let (label, gauge) = split_label_gauge(Rect::new(2, 10, 40, 5));

    assert_eq!((label.x, label.y, label.width, label.height), (3, 12, 13, 1));
    assert_eq!((gauge.y, gauge.height), (10, 5));
    assert!(gauge.x >= label.x + label.width);
}
