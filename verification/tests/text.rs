use upstream_sync::text::parse_u64;
use upstream_sync::text::signed_decimal;
use upstream_sync::text::unsigned_decimal;

#[test]
fn unsigned_decimal_writes_digits() {
    assert_eq!(unsigned_decimal(0), "0");
    assert_eq!(unsigned_decimal(7), "7");
    assert_eq!(unsigned_decimal(10), "10");
    assert_eq!(unsigned_decimal(300), "300");
    assert_eq!(unsigned_decimal(1234567890), "1234567890");
    assert_eq!(unsigned_decimal(u64::MAX), "18446744073709551615");
}

#[test]
fn signed_decimal_writes_sign() {
    assert_eq!(signed_decimal(0), "0");
    assert_eq!(signed_decimal(42), "42");
    assert_eq!(signed_decimal(-1), "-1");
    assert_eq!(signed_decimal(-907), "-907");
    assert_eq!(signed_decimal(i64::MAX), "9223372036854775807");
    assert_eq!(signed_decimal(i64::MIN), "-9223372036854775808");
    assert_eq!(signed_decimal(i32::MIN as i64), "-2147483648");
}

#[test]
fn signed_decimal_agrees_with_display() {
    for n in [-1000i64, -99, -10, -9, 0, 9, 10, 99, 100, 101, 65535, 1 << 40] {
        assert_eq!(signed_decimal(n), format!("{}", n));
    }
}

#[test]
fn parse_u64_reads_digits() {
    assert_eq!(parse_u64("0"), Some(0));
    assert_eq!(parse_u64("300"), Some(300));
    assert_eq!(parse_u64("0000300"), Some(300));
    assert_eq!(parse_u64("+15"), Some(15));
    assert_eq!(parse_u64("18446744073709551615"), Some(u64::MAX));
    assert_eq!(parse_u64("000000000000000000000000000000000005"), Some(5));
}

#[test]
fn parse_u64_refuses_what_is_no_number() {
    assert_eq!(parse_u64(""), None);
    assert_eq!(parse_u64("+"), None);
    assert_eq!(parse_u64("-"), None);
    assert_eq!(parse_u64("-5"), None);
    assert_eq!(parse_u64("++5"), None);
    assert_eq!(parse_u64("5+"), None);
    assert_eq!(parse_u64(" 5"), None);
    assert_eq!(parse_u64("5 "), None);
    assert_eq!(parse_u64("1_000"), None);
    assert_eq!(parse_u64("12a"), None);
    assert_eq!(parse_u64("3.5"), None);
    assert_eq!(parse_u64("٣"), None);
}

#[test]
fn parse_u64_refuses_overflow() {
    assert_eq!(parse_u64("18446744073709551616"), None);
    assert_eq!(parse_u64("18446744073709551620"), None);
    assert_eq!(parse_u64("99999999999999999999"), None);
    assert_eq!(parse_u64("184467440737095516150"), None);
}

#[test]
fn parse_u64_agrees_with_std() {
    for text in ["", "+", "0", "+0", "-0", "007", "300", "3e2", "0x10", "18446744073709551615",
        "18446744073709551616", "+18446744073709551615", " 1", "1\n", "١٢٣"]
    {
        assert_eq!(parse_u64(text), text.parse::<u64>().ok(), "{:?}", text);
    }
}
