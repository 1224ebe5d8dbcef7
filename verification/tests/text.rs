//! Text building blocks.

use akagi::autoplay::menu::action_button_selector;
use akagi::text::{find_bytes, push_decimal, rfind_bytes, same_bytes, same_text};

#[test]
fn numbers_are_written_without_leading_zeros() {
    for n in [0u32, 7, 10, 105, 65_535, u32::MAX] {
        let mut out = String::from("n=");
        push_decimal(&mut out, n);
        assert_eq!(out, format!("n={n}"));
    }
}

#[test]
fn search_finds_the_first_and_the_last_place() {
    assert_eq!(find_bytes(b"abcabc", b"bc"), Some(1));
    assert_eq!(rfind_bytes(b"abcabc", b"bc"), Some(4));
    assert_eq!(find_bytes(b"abc", b"x"), None);
    assert_eq!(rfind_bytes(b"abc", b"abcd"), None);
}

#[test]
fn equality_is_by_content() {
    assert!(same_text("5mr", "5mr") && !same_text("5mr", "5m"));
    assert!(same_bytes(b"ab", b"ab") && !same_bytes(b"ab", b"ac"));
}

#[test]
fn a_button_is_found_by_its_name() {
    assert_eq!(action_button_selector(0), r#"[name="c22-0"]"#);
    assert_eq!(action_button_selector(21), r#"[name="c22-21"]"#);
}
