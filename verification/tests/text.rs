use zenbook_duo_daemon::text::{chars_of, parse_u32, same_text, starts_with, trim};

#[test]
fn trim_takes_off_what_the_standard_library_does() {
    for code in 0..=0x10ffff_u32 {
        if let Some(c) = char::from_u32(code) {
            let text = format!("{c}a{c}");
            assert_eq!(trim(&text), text.trim(), "U+{code:04X}");
        }
    }
    assert_eq!(trim(""), "");
    assert_eq!(trim(" \n\t "), "");
    assert_eq!(trim(" a b \n"), "a b");
}

#[test]
fn numbers_are_read_as_the_standard_library_does() {
    for text in [
        "", "0", "7", "1000", "+1000", "01000", "-1", "+", "-", "++1", "1+", "1000 ", "12a",
        "4294967295", "4294967296", "00000000000000000000012", "99999999999999999999",
    ] {
        assert_eq!(parse_u32(text), text.parse::<u32>().ok(), "{text:?}");
    }
}

#[test]
fn prefixes_and_equality() {
    assert!(starts_with("event12", "event"));
    assert!(starts_with("event", "event"));
    assert!(starts_with("event", ""));
    assert!(!starts_with("even", "event"));
    assert!(!starts_with("mouse0", "event"));
    assert!(same_text("low", "low"));
    assert!(!same_text("low", "lo"));
    assert!(!same_text("low", "lox"));
    assert_eq!(chars_of("a\u{e9}"), vec!['a', '\u{e9}']);
}
