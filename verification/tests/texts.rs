use croutond::numbers::{parse_number, push_decimal, push_hex_byte, ParseNumberError};
use croutond::text::{
    contains, is_blank, is_white_space, lines, rsplit_tail, same_text, split_once,
    split_whitespace, starts_with, to_ascii_lowercase, trim,
};

const SAMPLES: [&str; 16] = [
    "",
    " ",
    "a",
    " a b\tc ",
    "\u{a0}x\u{3000}",
    "line\nnext\r\nlast",
    "\n\n",
    "end\n",
    "end\r",
    "\r\n\r",
    "a:b:c",
    ":",
    "ÄÖ aZ",
    "\u{1680}\u{2003}",
    "\u{200b}x",
    "x\u{85}y\u{2028}z",
];

#[test]
fn texts_are_handled_as_in_the_standard_library() {
    for s in SAMPLES {
        assert_eq!(trim(s), s.trim(), "{s:?}");
        assert_eq!(is_blank(s), s.trim().is_empty(), "{s:?}");
        assert_eq!(split_whitespace(s), s.split_whitespace().collect::<Vec<&str>>(), "{s:?}");
        assert_eq!(lines(s), s.lines().collect::<Vec<&str>>(), "{s:?}");
        assert_eq!(to_ascii_lowercase(s), s.to_ascii_lowercase(), "{s:?}");
        let split = s.split_once(':').map(|(a, b)| (a.to_string(), b.to_string()));
        assert_eq!(split_once(s, ':'), split, "{s:?}");
        let tail = s.rsplit_once(':').map(|(_, b)| b.to_string());
        assert_eq!(rsplit_tail(s, ':'), tail, "{s:?}");
        for t in SAMPLES {
            assert_eq!(contains(s, t), s.contains(t), "{s:?} {t:?}");
            assert_eq!(starts_with(s, t), s.starts_with(t), "{s:?} {t:?}");
            assert_eq!(same_text(s, t), s == t, "{s:?} {t:?}");
        }
    }
}

#[test]
fn white_space_is_as_in_the_standard_library() {
    for n in 0..0x11_0000 {
        if let Some(c) = char::from_u32(n) {
            assert_eq!(is_white_space(c), c.is_whitespace(), "{n:x}");
        }
    }
}

fn decimal_text(n: u64) -> String {
    let mut out = String::new();
    push_decimal(&mut out, n);
    out
}

#[test]
fn decimal_texts_are_read_back() {
    for n in [0, 7, 10, 99, 100, 12_345, u64::MAX] {
        assert_eq!(decimal_text(n), n.to_string());
        assert_eq!(parse_number(&decimal_text(n), u64::MAX), Ok(n));
    }
    let mut out = "n=".to_string();
    push_decimal(&mut out, 42);
    assert_eq!(out, "n=42");
}

#[test]
fn different_numbers_have_different_texts() {
    assert_ne!(decimal_text(1), decimal_text(10));
    assert_ne!(decimal_text(0), decimal_text(1));
}

#[test]
fn numbers_are_held_to_their_bound() {
    assert_eq!(parse_number("255", 255), Ok(255));
    assert_eq!(parse_number("256", 255), Err(ParseNumberError::TooLarge));
    assert_eq!(parse_number("", 255), Err(ParseNumberError::Empty));
    assert_eq!(parse_number("2x", 255), Err(ParseNumberError::InvalidDigit));
}

#[test]
fn bytes_are_written_with_two_digits() {
    let mut out = String::from("x");
    for b in [0, 10, 0x5f, 255] {
        push_hex_byte(&mut out, b);
    }
    assert_eq!(out, "x000a5fff");
}
