use rok_api::decimal::{i64_to_text, parse_i64, parse_u32};

#[test]
fn parse_i64_accepts_what_std_accepts() {
    let cases = [
        "0", "42", "-7", "+5", "007", "-0", "9223372036854775807", "-9223372036854775808",
        "9223372036854775808", "-9223372036854775809", "", "-", "+", "12a", " 1", "1 ", "+-1",
        "--1", "٣", "99999999999999999999999",
    ];
    for c in cases {
        assert_eq!(parse_i64(c), c.parse::<i64>().ok(), "input {:?}", c);
    }
}

#[test]
fn parse_i64_exact_values() {
    assert_eq!(parse_i64("42"), Some(42));
    assert_eq!(parse_i64("-7"), Some(-7));
    assert_eq!(parse_i64("+5"), Some(5));
    assert_eq!(parse_i64("-9223372036854775808"), Some(i64::MIN));
    assert_eq!(parse_i64("9223372036854775808"), None);
    assert_eq!(parse_i64("abc"), None);
    assert_eq!(parse_i64(""), None);
}

#[test]
fn parse_u32_accepts_what_std_accepts() {
    let cases = [
        "0", "10", "+10", "-0", "-1", "4294967295", "4294967296", "", "+", "x", "12 ",
    ];
    for c in cases {
        assert_eq!(parse_u32(c), c.parse::<u32>().ok(), "input {:?}", c);
    }
    assert_eq!(parse_u32("25"), Some(25));
    assert_eq!(parse_u32("-1"), None);
}

#[test]
fn i64_to_text_matches_to_string() {
    for n in [0i64, 1, 9, 10, 12345, -1, -10, i64::MAX, i64::MIN] {
        assert_eq!(i64_to_text(n), n.to_string());
    }
    assert_eq!(i64_to_text(-305), "-305");
}

#[test]
fn i64_text_round_trip() {
    for n in [0i64, 7, -7, 100, i64::MAX, i64::MIN, 1234567890123] {
        assert_eq!(parse_i64(&i64_to_text(n)), Some(n));
    }
}
