use hoshi::utils::{decode, same_text};
use hoshi::utils::range::Range;
use hoshi::utils::source::Source;
use hoshi::utils::{
    highlight_text_with_cyan, highlight_text_with_green, highlight_text_with_red,
    highlight_text_with_white, highlight_text_with_yellow, match_number,
};

#[test]
fn digits_and_the_dot_are_number_characters() {
    for c in "1234567890.".chars() {
        assert!(match_number(c), "{c}");
    }
    for c in ['a', '-', ' ', ',', 'e', '٣'] {
        assert!(!match_number(c), "{c}");
    }
}

#[test]
fn highlights_wrap_the_text_in_escape_sequences() {
    assert_eq!(highlight_text_with_red("x"), "\x1b[31mx\x1b[0m");
    assert_eq!(highlight_text_with_yellow("x"), "\x1b[33mx\x1b[0m");
    assert_eq!(highlight_text_with_cyan("x"), "\x1b[36mx\x1b[0m");
    assert_eq!(highlight_text_with_white("x"), "\x1b[97mx\x1b[0m");
    assert_eq!(highlight_text_with_green("x"), "\x1b[32mx\x1b[0m");
    assert_eq!(highlight_text_with_red(""), "\x1b[31m\x1b[0m");
}

#[test]
fn a_source_keeps_its_path_and_text() {
    let source = Source::new("a/b.hoshi", "FROM t");
    assert_eq!(source.path, "a/b.hoshi");
    assert_eq!(source.raw, "FROM t");
}

#[test]
fn the_default_range_is_empty_at_zero() {
    assert_eq!(Range::default(), Range { start: 0, end: 0 });
    assert_eq!(Range::new(3, 9), Range { start: 3, end: 9 });
}

#[test]
fn texts_are_the_same_when_their_characters_are() {
    assert!(same_text("", ""));
    assert!(same_text("SELECT", "SELECT"));
    assert!(same_text("日本語", "日本語"));
    assert!(!same_text("SELECT", "SELECT "));
    assert!(!same_text("SELECT", "select"));
    assert!(!same_text("a", ""));
    assert!(!same_text("é", "e"));
}

#[test]
fn a_text_is_decoded_into_its_characters() {
    assert_eq!(decode(""), Vec::<char>::new());
    assert_eq!(decode("aé😀"), vec!['a', 'é', '😀']);
}
