use evtr::monitor::math::wrapped_value;
use evtr::monitor::ui::visible_window;

#[test]
fn visible_window_basic() {
    assert_eq!(visible_window(10, 0, 5), (0, 5));
    assert_eq!(visible_window(10, 8, 5), (5, 5));
    assert_eq!(visible_window(10, 5, 5), (5, 5));
    assert_eq!(visible_window(3, 0, 10), (0, 3));
}

#[test]
fn visible_window_returns_zero_window_when_total_or_capacity_is_zero() {
    assert_eq!(visible_window(0, 5, 3), (0, 0));
    assert_eq!(visible_window(5, 3, 0), (0, 0));
}

#[test]
fn visible_window_uses_the_requested_offset_when_it_is_in_range() {
    assert_eq!(visible_window(10, 2, 4), (2, 4));
}

#[test]
fn visible_window_clamps_to_the_last_full_window_near_the_end() {
    assert_eq!(visible_window(10, 9, 4), (6, 4));
}

#[test]
fn wrapped_value_folds_into_the_window_around_zero() {
    assert_eq!(wrapped_value(250, 1000), 250);
    assert_eq!(wrapped_value(750, 1000), -250);
    assert_eq!(wrapped_value(-750, 1000), 250);
    assert_eq!(wrapped_value(500, 1000), 500);
    assert_eq!(wrapped_value(-500, 1000), -500);
    assert_eq!(wrapped_value(2100, 1000), 100);
}

#[test]
fn wrapped_value_differs_by_whole_ranges() {
    for value in [-2999, -1501, -1, 0, 1, 499, 501, 1499, 123456] {
        let wrapped = wrapped_value(value, 1000);
        assert_eq!((wrapped - value).rem_euclid(1000), 0);
        assert!((-501..=500).contains(&wrapped));
    }
}

#[test]
fn wrapped_value_is_symmetric_and_idempotent() {
    for value in [0, 1, 499, 500, 501, 999, 1000, 1501, 123_456, -77] {
        let wrapped = wrapped_value(value, 1000);
        assert_eq!(wrapped_value(-value, 1000), -wrapped);
        assert_eq!(wrapped_value(wrapped, 1000), wrapped);
        assert!((-500..=500).contains(&wrapped));
    }
    assert_eq!(wrapped_value(7, 4), -1);
    assert_eq!(wrapped_value(-7, 4), 1);
}
