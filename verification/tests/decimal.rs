use edsm::decimal::{decimal_over, digit_of, parse_u64};

#[test]
fn digits() {
    assert_eq!(digit_of('0'), Some(0));
    assert_eq!(digit_of('7'), Some(7));
    assert_eq!(digit_of('9'), Some(9));
    for c in ['/', ':', 'a', ' ', '-', '.', '٣', '７'] {
        assert_eq!(digit_of(c), None);
    }
}

#[test]
fn natural_numbers() {
    assert_eq!(parse_u64("0"), Some(0));
    assert_eq!(parse_u64("7"), Some(7));
    assert_eq!(parse_u64("1609459200"), Some(1609459200));
    assert_eq!(parse_u64("18446744073709551615"), Some(u64::MAX));
    assert_eq!(parse_u64("18446744073709551616"), None);
    assert_eq!(parse_u64("18446744073709551620"), None);
    assert_eq!(parse_u64("99999999999999999999"), None);
    assert_eq!(parse_u64("100000000000000000000000000000"), None);
    for text in ["", "00", "01", "007", "+1", "-1", "1.0", "1e3", " 1", "1 ", "0x10", "١٢٣", "12a"] {
        assert_eq!(parse_u64(text), None, "{:?}", text);
    }
}

#[test]
fn decimal_numbers_against_a_limit() {
    for (text, limit, over) in [
        ("0", 0, false),
        ("0.0", 0, false),
        ("0.001", 0, true),
        ("1", 0, true),
        ("100", 100, false),
        ("100.0", 100, false),
        ("100.00000", 100, false),
        ("100.00001", 100, true),
        ("100.5", 100, true),
        ("101", 100, true),
        ("99.99999", 100, false),
        ("0099.5", 100, false),
        ("000101", 100, true),
        ("-101", 100, false),
        ("-0.5", 0, false),
        ("4294967295", u32::MAX, false),
        ("4294967295.0", u32::MAX, false),
        ("4294967295.01", u32::MAX, true),
        ("4294967296", u32::MAX, true),
        ("184467440737095516160000000000000000000", u32::MAX, true),
        ("17.8", 100, false),
    ] {
        assert_eq!(decimal_over(text, limit), Some(over), "{:?} over {}", text, limit);
    }
    for text in ["", "-", ".", "-.", "1.", ".1", "-.1", "1..2", "1.2.3", "1e5", "--1", "1-", "+1", "1 ", "NaN", "inf", "١"] {
        assert_eq!(decimal_over(text, 100), None, "{:?}", text);
    }
}
