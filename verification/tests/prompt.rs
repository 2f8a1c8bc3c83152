use zprs::paint::Tint;
use zprs::prompt::{render, select_glyph, Glyph};

#[test]
fn command_mode_whatever_the_exit_code() {
    assert_eq!(select_glyph("vicmd", "1"), (Glyph::Command, Tint::Rgb(33, 207, 95)));
    assert_eq!(select_glyph("vicmd", "0"), (Glyph::Command, Tint::Rgb(33, 207, 95)));
}

#[test]
fn insert_mode_after_success() {
    assert_eq!(select_glyph("US", "0"), (Glyph::Insert, Tint::Rgb(33, 207, 95)));
}

#[test]
fn insert_mode_after_failure() {
    assert_eq!(select_glyph("US", "1"), (Glyph::Insert, Tint::Rgb(255, 0, 75)));
    assert_eq!(select_glyph("main", "00"), (Glyph::Insert, Tint::Rgb(255, 0, 75)));
    assert_eq!(select_glyph("", ""), (Glyph::Insert, Tint::Rgb(255, 0, 75)));
}

#[test]
fn glyphs() {
    assert_eq!(Glyph::Insert.symbol(), "\u{276f}");
    assert_eq!(Glyph::Command.symbol(), "\u{276e}");
}

#[test]
fn prompt_without_virtual_environment() {
    assert_eq!(render("US", "0", ""), "\x1b[38;2;33;207;95m\u{276f}\x1b[0m ");
    assert_eq!(render("US", "127", ""), "\x1b[38;2;255;0;75m\u{276f}\x1b[0m ");
    assert_eq!(render("vicmd", "127", ""), "\x1b[38;2;33;207;95m\u{276e}\x1b[0m ");
}

#[test]
fn prompt_with_virtual_environment() {
    assert_eq!(render("US", "0", "py3"), "%F{11}|py3|%f \x1b[38;2;33;207;95m\u{276f}\x1b[0m ");
}
