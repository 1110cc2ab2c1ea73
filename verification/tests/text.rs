use companion::text::{blank, first_chars, last_chars};

#[test]
fn blank_text_is_whitespace_only() {
    assert!(blank(""));
    assert!(blank("   "));
    assert!(blank("\t\r\n \u{0b}\u{0c}"));
    assert!(blank("\u{85}\u{a0}\u{1680}\u{2000}\u{200a}\u{2028}\u{2029}\u{202f}\u{205f}\u{3000}"));
    assert!(!blank("a"));
    assert!(!blank("  a  "));
    assert!(!blank("\u{200b}"));
    assert!(!blank("\u{180e}"));
    assert!(!blank("\u{feff}"));
    assert!(!blank("\u{1c}"));
}

#[test]
fn the_last_characters_are_counted_in_characters() {
    assert_eq!(last_chars("hello", 3), "llo");
    assert_eq!(last_chars("hello", 5), "hello");
    assert_eq!(last_chars("hello", 9), "hello");
    assert_eq!(last_chars("hello", 0), "");
    assert_eq!(last_chars("", 4), "");
    assert_eq!(last_chars("aé…z", 3), "é…z");
    assert_eq!(last_chars("aé…z", 2), "…z");
}

#[test]
fn the_first_characters_are_counted_in_characters() {
    assert_eq!(first_chars("hello", 3), "hel");
    assert_eq!(first_chars("hello", 5), "hello");
    assert_eq!(first_chars("hello", 9), "hello");
    assert_eq!(first_chars("hello", 0), "");
    assert_eq!(first_chars("…éa", 2), "…é");
}
