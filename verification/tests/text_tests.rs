use perfbot::text::{contains, format_i64, format_u64, parse_i64, parse_u64, starts_with, to_ascii_lowercase};

#[test]
fn formats_numbers_like_display() {
    assert_eq!(format_u64(0), "0");
    assert_eq!(format_u64(7), "7");
    assert_eq!(format_u64(1234567890), "1234567890");
    assert_eq!(format_u64(u64::MAX), u64::MAX.to_string());
    assert_eq!(format_i64(-42), "-42");
    assert_eq!(format_i64(i64::MIN), i64::MIN.to_string());
    assert_eq!(format_i64(i64::MAX), i64::MAX.to_string());
}

#[test]
fn parses_unsigned_like_std() {
    for s in ["", "+", "-", "0", "+17", "-5", "12a", "18446744073709551615", "18446744073709551616", "007", "++1", " 1"] {
        assert_eq!(parse_u64(s), s.parse::<u64>().ok(), "input {:?}", s);
    }
}

#[test]
fn parses_signed_like_std() {
    for s in ["", "+", "-", "0", "-0", "+17", "-5", "12a", "9223372036854775807", "9223372036854775808", "-9223372036854775808", "-9223372036854775809", "--1"] {
        assert_eq!(parse_i64(s), s.parse::<i64>().ok(), "input {:?}", s);
    }
}

#[test]
fn rendering_then_reading_gives_the_number_back() {
    for n in [0u64, 1, 9, 10, 99, 100, 4242, u64::MAX] {
        assert_eq!(parse_u64(&format_u64(n)), Some(n));
    }
    for n in [0i64, -1, 1, -10, 123456, i64::MIN, i64::MAX] {
        assert_eq!(parse_i64(&format_i64(n)), Some(n));
    }
}

#[test]
fn lowercases_ascii_only() {
    assert_eq!(to_ascii_lowercase("ST-Link V2"), "st-link v2");
    assert_eq!(to_ascii_lowercase("ÄBC"), "Äbc");
    assert_eq!(to_ascii_lowercase(""), "");
}

#[test]
fn lowercasing_twice_is_lowercasing_once() {
    let once = to_ascii_lowercase("nRF52840 J-Link");
    assert_eq!(to_ascii_lowercase(&once), once);
}

#[test]
fn prefixes_and_substrings() {
    assert!(starts_with("!perf now", "!perf"));
    assert!(!starts_with("!per", "!perf"));
    assert!(starts_with("abc", ""));
    assert!(contains("ws://localhost:8000", "localhost"));
    assert!(contains("abc", ""));
    assert!(!contains("wss://db.example.org", "127.0.0.1"));
    assert!(contains("127.0.0.1", "127.0.0.1"));
}
