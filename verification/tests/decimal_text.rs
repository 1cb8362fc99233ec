use graphcast_cli::decimal::{format_i64, parse_i64};

#[test]
fn parse_reads_plain_digits() {
    assert_eq!(parse_i64("0"), Some(0));
    assert_eq!(parse_i64("7"), Some(7));
    assert_eq!(parse_i64("12345"), Some(12345));
    assert_eq!(parse_i64("000123"), Some(123));
}

#[test]
fn parse_reads_an_optional_sign() {
    assert_eq!(parse_i64("+7"), Some(7));
    assert_eq!(parse_i64("-7"), Some(-7));
    assert_eq!(parse_i64("-0"), Some(0));
    assert_eq!(parse_i64("+0"), Some(0));
    assert_eq!(parse_i64("-16000000"), Some(-16_000_000));
}

#[test]
fn parse_accepts_exactly_the_64_bit_range() {
    assert_eq!(parse_i64("9223372036854775807"), Some(i64::MAX));
    assert_eq!(parse_i64("+9223372036854775807"), Some(i64::MAX));
    assert_eq!(parse_i64("9223372036854775808"), None);
    assert_eq!(parse_i64("-9223372036854775808"), Some(i64::MIN));
    assert_eq!(parse_i64("-9223372036854775809"), None);
    assert_eq!(parse_i64("99999999999999999999999999"), None);
    assert_eq!(parse_i64("-99999999999999999999999999"), None);
    assert_eq!(parse_i64("00000000000000000000000009223372036854775807"), Some(i64::MAX));
}

#[test]
fn parse_rejects_what_is_no_decimal_literal() {
    for text in [
        "", "+", "-", " 1", "1 ", "1_000", "0x10", "1.5", "--1", "+-1", "1-", "1+", "a", "12a",
        "\u{ff11}\u{ff12}", "\u{0663}", "1e3", "\t7", "7\n",
    ] {
        assert_eq!(parse_i64(text), None, "{:?}", text);
    }
}

#[test]
fn parse_agrees_with_the_standard_library() {
    for text in [
        "0", "-0", "+0", "1", "-1", "+1", "42", "0042", "-0042", "", "+", "-", "4 2", "42 ",
        "9223372036854775807", "9223372036854775808", "-9223372036854775808",
        "-9223372036854775809", "18446744073709551616", "x", "4x", "x4", "++4", "4.0",
    ] {
        assert_eq!(parse_i64(text), text.parse::<i64>().ok(), "{:?}", text);
    }
}

#[test]
fn format_writes_decimal_digits() {
    assert_eq!(format_i64(0), "0");
    assert_eq!(format_i64(7), "7");
    assert_eq!(format_i64(10), "10");
    assert_eq!(format_i64(-7), "-7");
    assert_eq!(format_i64(1000), "1000");
    assert_eq!(format_i64(-120034), "-120034");
    assert_eq!(format_i64(i64::MAX), "9223372036854775807");
    assert_eq!(format_i64(i64::MIN), "-9223372036854775808");
}

#[test]
fn format_agrees_with_the_standard_library() {
    for v in [0i64, 1, -1, 9, 10, 11, 99, 100, 101, -99, -100, 16_000_000, i64::MAX, i64::MIN, i64::MIN + 1] {
        assert_eq!(format_i64(v), v.to_string());
    }
}

#[test]
fn format_then_parse_gives_the_number_back() {
    for v in [0i64, 5, -5, 123456789, -987654321, i64::MAX, i64::MIN, i64::MAX - 1, i64::MIN + 1] {
        assert_eq!(parse_i64(&format_i64(v)), Some(v));
    }
}
