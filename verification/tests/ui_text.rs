use evtr::ui::numbers::{alternate_hex, i32_decimal, usize_decimal};
use evtr::ui::text::{display_width, take_display_width, truncate_display_width, ELLIPSIS};

#[test]
fn display_width_counts_terminal_cells() {
    assert_eq!(display_width("hello"), 5);
    assert_eq!(display_width("界界"), 4);
    assert_eq!(display_width("e\u{301}"), 1);
}

#[test]
fn truncate_display_width_preserves_ascii_behavior() {
    assert_eq!(truncate_display_width("hello", 10), "hello");
    assert_eq!(truncate_display_width("hello", 5), "hello");
    assert_eq!(truncate_display_width("hello world", 8), format!("hello w{ELLIPSIS}"));
    assert_eq!(truncate_display_width("hello", 0), "");
    assert_eq!(truncate_display_width("hello", 1), "h");
    assert_eq!(truncate_display_width("hello", 2), format!("h{ELLIPSIS}"));
    assert_eq!(truncate_display_width("hello", 3), format!("he{ELLIPSIS}"));
}

#[test]
fn truncate_display_width_handles_wide_characters() {
    assert_eq!(truncate_display_width("hello界界", 7), format!("hello{ELLIPSIS}"));
    assert_eq!(truncate_display_width("界界", 1), ELLIPSIS.to_string());
    assert_eq!(truncate_display_width("界界", 2), ELLIPSIS.to_string());
}

#[test]
fn truncate_display_width_handles_combining_marks() {
    assert_eq!(truncate_display_width("e\u{301}abc", 4), "e\u{301}abc");
    assert_eq!(truncate_display_width("e\u{301}abcdef", 4), format!("e\u{301}ab{ELLIPSIS}"));
}

#[test]
fn take_display_width_stops_at_the_first_character_that_does_not_fit() {
    assert_eq!(take_display_width("ab界c", 3), "ab");
    assert_eq!(take_display_width("ab界c", 4), "ab界");
    assert_eq!(take_display_width("", 4), "");
}

#[test]
fn numbers_are_written_as_format_writes_them() {
    assert_eq!(usize_decimal(0), "0");
    assert_eq!(usize_decimal(4096), "4096");
    assert_eq!(i32_decimal(-2147483648), "-2147483648");
    assert_eq!(alternate_hex(0), "0x0");
    assert_eq!(alternate_hex(0xabcd), "0xabcd");
}
