use tokio_console::options::parse_true_color;
use tokio_console::text::{chars, ends_with, eq_ignore_ascii_case, is_white_space, same, trim};

fn trimmed(s: &str) -> String {
    trim(s).iter().collect()
}

#[test]
fn white_space_is_that_of_std() {
    for c in '\u{0}'..=char::MAX {
        assert_eq!(is_white_space(c), c.is_whitespace(), "{:?}", c);
    }
}

#[test]
fn trims_both_ends() {
    for s in ["", "  ", "a", " a b ", "\t\r\nx", "y\u{3000}", "\u{2003}z z\u{85}\u{a0}", "\u{200b}q"] {
        assert_eq!(trimmed(s), s.trim());
    }
}

#[test]
fn compares_text() {
    assert!(same(&chars("off"), "off"));
    assert!(!same(&chars("off"), "Off"));
    assert!(!same(&chars("off"), "offs"));
    assert!(eq_ignore_ascii_case(&chars("TrueColor"), "truecolor"));
    assert!(!eq_ignore_ascii_case(&chars("truecolour"), "truecolor"));
    assert!(!eq_ignore_ascii_case(&chars("@[`{"), "`{@["));
    assert!(!eq_ignore_ascii_case(&chars("\u{c4}"), "\u{e4}"));
}

#[test]
fn finds_suffixes() {
    assert!(ends_with("en_US.UTF-8", "UTF-8"));
    assert!(ends_with("UTF-8", "UTF-8"));
    assert!(ends_with("", ""));
    assert!(!ends_with("UTF-8 ", "UTF-8"));
    assert!(!ends_with("en_us.UTF8", "UTF-8"));
    assert!(!ends_with("-8", "UTF-8"));
}

#[test]
fn true_color_text() {
    assert!(parse_true_color("truecolor"));
    assert!(parse_true_color("24bit"));
    assert!(parse_true_color(" TrueColor\n"));
    assert!(parse_true_color("24BIT"));
    assert!(!parse_true_color(""));
    assert!(!parse_true_color("true color"));
    assert!(!parse_true_color("256color"));
}
