use whisperfish::text::{chars_of, parse_u64, remove_char, same_text, trim};

fn v(s: &str) -> Vec<char> {
    s.chars().collect()
}

#[test]
fn trim_removes_surrounding_white_space() {
    assert_eq!(trim("  +358 40 \t\n"), v("+358 40"));
    assert_eq!(trim("abc"), v("abc"));
    assert_eq!(trim("   "), v(""));
    assert_eq!(trim(""), v(""));
    assert_eq!(trim("\u{a0}x\u{3000}"), v("x"));
}

#[test]
fn remove_char_drops_every_occurrence() {
    assert_eq!(remove_char(&v("040 123 4567"), ' '), v("0401234567"));
    assert_eq!(remove_char(&v("   "), ' '), v(""));
}

#[test]
fn parse_u64_follows_from_str() {
    assert_eq!(parse_u64(&v("0")), Some(0));
    assert_eq!(parse_u64(&v("1234")), Some(1234));
    assert_eq!(parse_u64(&v("+5")), Some(5));
    assert_eq!(parse_u64(&v("+")), None);
    assert_eq!(parse_u64(&v("")), None);
    assert_eq!(parse_u64(&v("-5")), None);
    assert_eq!(parse_u64(&v("12a")), None);
    assert_eq!(parse_u64(&v("18446744073709551615")), Some(u64::MAX));
    assert_eq!(parse_u64(&v("18446744073709551616")), None);
    for s in ["7", "+42", "x", "", "99999999999999999999"] {
        assert_eq!(parse_u64(&v(s)), s.parse::<u64>().ok());
    }
}

#[test]
fn chars_and_comparison() {
    assert_eq!(chars_of("hé"), vec!['h', 'é']);
    assert!(same_text("abc", "abc"));
    assert!(!same_text("abc", "abd"));
    assert!(!same_text("abc", "ab"));
}

#[test]
fn white_space_matches_std_for_every_char() {
    for v in 0u32..=0x10FFFF {
        if let Some(c) = char::from_u32(v) {
            assert_eq!(whisperfish::text::is_whitespace(c), c.is_whitespace(), "U+{:04X}", v);
        }
    }
}

#[test]
fn blank_text_trims_to_empty() {
    assert_eq!(trim("  \t "), v(""));
    assert_eq!(trim("\u{2028}\u{85}\u{200a}"), v(""));
    assert_eq!(trim(" \u{200b} "), v("\u{200b}"));
}
