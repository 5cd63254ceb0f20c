use lambda_runtime_client::decimal::parse_i64;

fn agrees_with_std(text: &str) {
    assert_eq!(parse_i64(text), text.parse::<i64>().ok(), "on {:?}", text);
}

#[test]
fn plain_numbers() {
    assert_eq!(parse_i64("0"), Some(0));
    assert_eq!(parse_i64("7"), Some(7));
    assert_eq!(parse_i64("42"), Some(42));
    assert_eq!(parse_i64("1542409706888"), Some(1542409706888));
}

#[test]
fn signs() {
    assert_eq!(parse_i64("+42"), Some(42));
    assert_eq!(parse_i64("-42"), Some(-42));
    assert_eq!(parse_i64("-0"), Some(0));
    assert_eq!(parse_i64("+0"), Some(0));
    assert_eq!(parse_i64("-"), None);
    assert_eq!(parse_i64("+"), None);
    assert_eq!(parse_i64("--1"), None);
    assert_eq!(parse_i64("+-1"), None);
    assert_eq!(parse_i64("1-"), None);
}

#[test]
fn leading_zeros() {
    assert_eq!(parse_i64("007"), Some(7));
    assert_eq!(parse_i64("-007"), Some(-7));
    assert_eq!(parse_i64("0000000000000000000000000000001"), Some(1));
}

#[test]
fn the_ends_of_the_range() {
    assert_eq!(parse_i64("9223372036854775807"), Some(i64::MAX));
    assert_eq!(parse_i64("9223372036854775808"), None);
    assert_eq!(parse_i64("-9223372036854775808"), Some(i64::MIN));
    assert_eq!(parse_i64("-9223372036854775809"), None);
    assert_eq!(parse_i64("99999999999999999999999999"), None);
    assert_eq!(parse_i64("-99999999999999999999999999"), None);
    assert_eq!(parse_i64("92233720368547758070"), None);
}

#[test]
fn what_is_no_number() {
    assert_eq!(parse_i64(""), None);
    assert_eq!(parse_i64(" 1"), None);
    assert_eq!(parse_i64("1 "), None);
    assert_eq!(parse_i64("1_000"), None);
    assert_eq!(parse_i64("1.0"), None);
    assert_eq!(parse_i64("0x10"), None);
    assert_eq!(parse_i64("ten"), None);
    assert_eq!(parse_i64("1e3"), None);
    assert_eq!(parse_i64("\u{663}"), None);
    assert_eq!(parse_i64("1\u{e9}"), None);
    assert_eq!(parse_i64("99999999999999999999999999x"), None);
    assert_eq!(parse_i64("/"), None);
    assert_eq!(parse_i64(":"), None);
}

#[test]
fn parsing_agrees_with_the_standard_library() {
    for text in [
        "", "0", "-0", "+0", "1", "-1", "+1", "12345", "-12345", "00", "-", "+", "++1", "1+",
        "9223372036854775807", "9223372036854775808", "-9223372036854775808",
        "-9223372036854775809", "18446744073709551616", " 1", "1 ", "a", "1a", "a1", "１",
        "1_0", "1.5", "-1.5", "\t1", "1\n", "0000000000000000000009223372036854775807",
    ] {
        agrees_with_std(text);
    }
    for n in [-1000i64, -1, 0, 1, 9, 10, 99, 100, 1 << 40, i64::MAX, i64::MIN, i64::MAX - 1] {
        assert_eq!(parse_i64(&n.to_string()), Some(n));
    }
}
