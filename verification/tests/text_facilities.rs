use cuke_runner_glue::text::{chars_of, contains, is_whitespace, starts_with, str_eq, to_lowercase};

#[test]
fn texts_compare_character_by_character() {
    assert!(str_eq("given", "given"));
    assert!(!str_eq("given", "Given"));
    assert!(!str_eq("given", "give"));
    assert!(str_eq("", ""));
    assert_eq!(chars_of("añb"), vec!['a', 'ñ', 'b']);
}

#[test]
fn prefixes_and_parts_are_found() {
    assert!(starts_with("std::panicking", "std::"));
    assert!(!starts_with("st", "std::"));
    assert!(starts_with("abc", ""));
    assert!(contains("x::__rust_begin_short_backtrace::y", "__rust_begin_short_backtrace"));
    assert!(contains("abc", "c"));
    assert!(!contains("abc", "cd"));
    assert!(contains("abc", ""));
}

#[test]
fn ascii_text_is_lowered_letter_by_letter() {
    assert_eq!(to_lowercase("GiVeN *"), "given *");
    assert!(is_whitespace('\u{3000}'));
    assert!(!is_whitespace('@'));
}

#[test]
fn whitespace_is_that_of_the_standard_library() {
    for code in 0u32..0x3100 {
        if let Some(c) = char::from_u32(code) {
            assert_eq!(is_whitespace(c), c.is_whitespace(), "{:?}", c);
        }
    }
}
