use evtr::rect::Rect;
use evtr::ui::popup::{popup_area, PopupSize};

fn lines(text: &[&str]) -> Vec<String> {
    text.iter().map(|line| line.to_string()).collect()
}

#[test]
fn render_popup_is_a_no_op_when_the_area_cannot_fit_the_popup() {
    let area = Rect::new(0, 0, 4, 2);

    assert_eq!(popup_area(area, PopupSize::new(10, 4), &lines(&["line 1"])), None);
}

#[test]
fn popup_area_centres_a_box_sized_to_the_text() {
    let area = Rect::new(0, 0, 24, 8);
    let size = PopupSize::new(10, 4).with_max_width(20);

    let placed = popup_area(area, size, &lines(&["first line", "second line"]));

    assert_eq!(placed, Some(Rect::new(5, 2, 13, 4)));
}

#[test]
fn popup_area_respects_the_maximums_and_the_area() {
    let area = Rect::new(10, 10, 40, 6);
    let size = PopupSize::new(4, 3).with_max_width(12).with_max_height(5);
    let text = lines(&["a line much longer than twelve cells", "2", "3", "4", "5", "6"]);

    assert_eq!(popup_area(area, size, &text), Some(Rect::new(24, 10, 12, 5)));
}

#[test]
fn popup_area_measures_wide_characters_in_cells() {
    let area = Rect::new(0, 0, 30, 10);

    let placed = popup_area(area, PopupSize::new(0, 0), &lines(&["日本語"]));

    assert_eq!(placed, Some(Rect::new(11, 3, 8, 3)));
}
