use todo_tui::constants::chars;
use todo_tui::format::{push_decimal, repeat};
use todo_tui::primitives::LineType;

fn decimal(n: u16) -> String {
    let mut text = String::new();
    push_decimal(&mut text, n);
    text
}

#[test]
fn decimal_notation_has_no_leading_zeros() {
    assert_eq!(decimal(0), "0");
    assert_eq!(decimal(7), "7");
    assert_eq!(decimal(10), "10");
    assert_eq!(decimal(507), "507");
    assert_eq!(decimal(9999), "9999");
    assert_eq!(decimal(10000), "10000");
    assert_eq!(decimal(65535), "65535");
}

#[test]
fn decimal_notation_agrees_with_std_for_every_value() {
    for n in 0..=u16::MAX {
        assert_eq!(decimal(n), n.to_string());
    }
}

#[test]
fn push_decimal_appends() {
    let mut text = String::from("X: ");
    push_decimal(&mut text, 80);
    assert_eq!(text, "X: 80");
}

#[test]
fn repeat_writes_the_unit_n_times() {
    assert_eq!(repeat("\u{2550}", 0), "");
    assert_eq!(repeat("\u{2550}", 3), "\u{2550}\u{2550}\u{2550}");
    assert_eq!(repeat("ab", 2), "abab");
    assert_eq!(repeat("", 5), "");
    assert_eq!(repeat(" ", 65533).len(), 65533);
}

#[test]
fn glyph_table_holds_the_box_drawing_characters() {
    let table = chars();
    let double = table.lines.double;
    assert_eq!(double.top_left, "\u{2554}");
    assert_eq!(double.top_right, "\u{2557}");
    assert_eq!(double.bottom_left, "\u{255A}");
    assert_eq!(double.bottom_right, "\u{255D}");
    assert_eq!(double.horizontal, "\u{2550}");
    assert_eq!(double.vertical, "\u{2551}");
    let single = table.lines.single;
    assert_eq!(single.top_left, "\u{250C}");
    assert_eq!(single.top_right, "\u{2510}");
    assert_eq!(single.bottom_left, "\u{2514}");
    assert_eq!(single.bottom_right, "\u{2518}");
    assert_eq!(single.horizontal, "\u{2500}");
    assert_eq!(single.vertical, "\u{2502}");
}

#[test]
fn line_type_looks_its_glyphs_up() {
    assert_eq!(LineType::Double.chars().top_left, "\u{2554}");
    assert_eq!(LineType::Single.chars().top_left, "\u{250C}");
    assert_eq!(LineType::Double.chars().vertical, "\u{2551}");
    assert_eq!(LineType::Single.chars().horizontal, "\u{2500}");
}
