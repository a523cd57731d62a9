use auth0_mgmt_api::text::{decimal_string, parse_u64, push_decimal};

#[test]
fn decimal_string_writes_numbers() {
    assert_eq!(decimal_string(0), "0");
    assert_eq!(decimal_string(7), "7");
    assert_eq!(decimal_string(10), "10");
    assert_eq!(decimal_string(429), "429");
    assert_eq!(decimal_string(1_000_000), "1000000");
    assert_eq!(decimal_string(u64::MAX), "18446744073709551615");
}

#[test]
fn push_decimal_appends() {
    let mut text = String::from("status ");
    push_decimal(&mut text, 503);
    assert_eq!(text, "status 503");
    push_decimal(&mut text, 0);
    assert_eq!(text, "status 5030");
}

#[test]
fn parse_u64_reads_digits() {
    assert_eq!(parse_u64("0"), Some(0));
    assert_eq!(parse_u64("1"), Some(1));
    assert_eq!(parse_u64("120"), Some(120));
    assert_eq!(parse_u64("007"), Some(7));
    assert_eq!(parse_u64("+5"), Some(5));
    assert_eq!(parse_u64("18446744073709551615"), Some(u64::MAX));
}

#[test]
fn parse_u64_refuses_everything_else() {
    assert_eq!(parse_u64(""), None);
    assert_eq!(parse_u64("+"), None);
    assert_eq!(parse_u64("-1"), None);
    assert_eq!(parse_u64("++1"), None);
    assert_eq!(parse_u64("1+"), None);
    assert_eq!(parse_u64(" 5"), None);
    assert_eq!(parse_u64("5 "), None);
    assert_eq!(parse_u64("1.5"), None);
    assert_eq!(parse_u64("1e3"), None);
    assert_eq!(parse_u64("1_000"), None);
    assert_eq!(parse_u64("0x10"), None);
    assert_eq!(parse_u64("\u{ff15}"), None);
    assert_eq!(parse_u64("5\u{e9}"), None);
    assert_eq!(parse_u64("Wed, 21 Oct 2015 07:28:00 GMT"), None);
}

#[test]
fn parse_u64_refuses_overflow() {
    assert_eq!(parse_u64("18446744073709551616"), None);
    assert_eq!(parse_u64("18446744073709551620"), None);
    assert_eq!(parse_u64("99999999999999999999"), None);
    assert_eq!(parse_u64("100000000000000000000000000000"), None);
}

#[test]
fn parse_u64_agrees_with_std() {
    let samples = [
        "", "+", "0", "+0", "-0", "12", "+12", " 12", "12a", "a12", "00012",
        "18446744073709551615", "18446744073709551616", "+18446744073709551615",
    ];
    for s in samples {
        assert_eq!(parse_u64(s), s.parse::<u64>().ok(), "on {:?}", s);
    }
}

#[test]
fn parse_reads_what_decimal_wrote() {
    for n in [0u64, 1, 9, 10, 99, 100, 12345, u32::MAX as u64, u64::MAX - 1, u64::MAX] {
        assert_eq!(parse_u64(&decimal_string(n)), Some(n));
    }
}
