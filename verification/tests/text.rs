use voice_input::text::{
    from_chars, is_control, is_whitespace, join, parse_u64, push_decimal, same_text, strip_prefix,
    to_chars, trim, trim_end,
};
use voice_input::Duration;

#[test]
fn characters_are_classified_as_unicode_does() {
    for c in '\0'..=char::MAX {
        assert_eq!(is_whitespace(c), c.is_whitespace(), "{c:?}");
        assert_eq!(is_control(c), c.is_control(), "{c:?}");
    }
}

#[test]
fn trimming_agrees_with_the_standard_library() {
    for text in ["", " ", "a", " a ", "\u{3000}音 声\u{2003}\n", "a\u{200b} ", "\t\r\n"] {
        assert_eq!(trim(text), text.trim());
        assert_eq!(trim_end(text), text.trim_end());
    }
}

#[test]
fn numbers_are_written_and_read() {
    for n in [0_u64, 7, 10, 99, 100, 12_345, u64::MAX] {
        let mut text = String::new();
        push_decimal(&mut text, u128::from(n));
        assert_eq!(text, n.to_string());
        assert_eq!(parse_u64(&text), Some(n));
    }
    let mut text = "n=".to_owned();
    push_decimal(&mut text, u128::MAX);
    assert_eq!(text, format!("n={}", u128::MAX));
    for text in ["", "+", "-1", "1_000", "٣", "18446744073709551616", "99999999999999999999", "1 "] {
        assert_eq!(parse_u64(text), text.parse::<u64>().ok());
    }
    assert_eq!(parse_u64("+007"), "+007".parse::<u64>().ok());
}

#[test]
fn strings_are_taken_apart_and_put_together() {
    let chars = to_chars("añ音");
    assert_eq!(chars, vec!['a', 'ñ', '音']);
    assert_eq!(from_chars(&chars, 1, 3), "ñ音");
    assert!(same_text("音", "音"));
    assert!(!same_text("a", "A"));
    assert_eq!(strip_prefix("ERR x", "ERR "), Some("x".to_owned()));
    assert_eq!(strip_prefix("ERR", "ERR "), None);
    let items: Vec<String> = vec!["a".to_owned(), String::new(), "b".to_owned()];
    assert_eq!(join(&items, ", "), "a, , b");
    assert_eq!(join(&Vec::new(), ", "), "");
}

#[test]
fn durations_are_compared_and_subtracted() {
    let a = Duration::from_millis(1_250);
    assert_eq!(a.secs(), 1);
    assert_eq!(a.subsec_nanos(), 250_000_000);
    assert_eq!(a.as_millis(), 1_250);
    assert_eq!(a, Duration::from_parts(1, 250_000_000));
    assert_eq!(a.as_nanos(), 1_250_000_000);
    let b = Duration::from_secs(2);
    assert_eq!(b.saturating_sub(a), Duration::from_millis(750));
    assert_eq!(a.saturating_sub(b), Duration::zero());
    assert_eq!(a.min(b), a);
    assert_eq!(b.min(a), a);
    assert_eq!(Duration::from_secs(u64::MAX).secs(), u64::MAX);
}
