use gdevd::text::{bytes_eq, decimal, parse_decimal, str_eq};

#[test]
fn decimal_writes_numbers() {
    assert_eq!(decimal(0), "0");
    assert_eq!(decimal(7), "7");
    assert_eq!(decimal(10), "10");
    assert_eq!(decimal(500), "500");
    assert_eq!(decimal(65535), "65535");
    assert_eq!(decimal(4294967295), "4294967295");
}

#[test]
fn decimal_agrees_with_the_standard_library() {
    for n in (0u32..70000).step_by(37) {
        assert_eq!(decimal(n), n.to_string());
    }
}

#[test]
fn parse_decimal_reads_numbers() {
    assert_eq!(parse_decimal("0", 65535), Some(0));
    assert_eq!(parse_decimal("500", 65535), Some(500));
    assert_eq!(parse_decimal("65535", 65535), Some(65535));
    assert_eq!(parse_decimal("+17", 65535), Some(17));
    assert_eq!(parse_decimal("007", 65535), Some(7));
    assert_eq!(parse_decimal("100", 100), Some(100));
}

#[test]
fn parse_decimal_rejects_what_is_no_number() {
    assert_eq!(parse_decimal("", 65535), None);
    assert_eq!(parse_decimal("+", 65535), None);
    assert_eq!(parse_decimal("-1", 65535), None);
    assert_eq!(parse_decimal("12a", 65535), None);
    assert_eq!(parse_decimal(" 12", 65535), None);
    assert_eq!(parse_decimal("12 ", 65535), None);
    assert_eq!(parse_decimal("1_000", 65535), None);
    assert_eq!(parse_decimal("++1", 65535), None);
    assert_eq!(parse_decimal("٣", 65535), None);
}

#[test]
fn parse_decimal_rejects_what_is_too_large() {
    assert_eq!(parse_decimal("65536", 65535), None);
    assert_eq!(parse_decimal("101", 100), None);
    assert_eq!(parse_decimal("99999999999999999999999", 65535), None);
    assert_eq!(parse_decimal("000000000000000000000001", 65535), Some(1));
}

#[test]
fn parse_decimal_agrees_with_the_standard_library() {
    let samples = [
        "0", "1", "+1", "-0", "65535", "65536", "0065535", "", "+", "a", "1a", "12 ", "٣", "255",
        "256", "+255", "4294967296",
    ];
    for text in samples {
        assert_eq!(parse_decimal(text, 65535), text.parse::<u16>().ok().map(u32::from));
        assert_eq!(parse_decimal(text, 255), text.parse::<u8>().ok().map(u32::from));
    }
}

#[test]
fn strings_are_compared_by_content() {
    assert!(str_eq("", ""));
    assert!(str_eq("static", "static"));
    assert!(!str_eq("static", "static-all"));
    assert!(!str_eq("breath", "breathe"));
    assert!(!str_eq("a", "b"));
    assert!(bytes_eq(&[1, 2, 3], &[1, 2, 3]));
    assert!(!bytes_eq(&[1, 2, 3], &[1, 2]));
    assert!(!bytes_eq(&[1, 2, 3], &[1, 2, 4]));
}
