use wxdragon::decimal::{format_i32, format_u64, parse_i32};

#[test]
fn formats_exact_values() {
    assert_eq!(format_i32(0), "0");
    assert_eq!(format_i32(7), "7");
    assert_eq!(format_i32(42), "42");
    assert_eq!(format_i32(-240), "-240");
    assert_eq!(format_i32(2147483647), "2147483647");
    assert_eq!(format_i32(-2147483648), "-2147483648");
}

#[test]
fn formats_u64_values() {
    assert_eq!(format_u64(0), "0");
    assert_eq!(format_u64(10), "10");
    assert_eq!(format_u64(18446744073709551615), "18446744073709551615");
}

#[test]
fn parses_exact_values() {
    assert_eq!(parse_i32("0"), Some(0));
    assert_eq!(parse_i32("42"), Some(42));
    assert_eq!(parse_i32("-240"), Some(-240));
    assert_eq!(parse_i32("2147483647"), Some(2147483647));
    assert_eq!(parse_i32("-2147483648"), Some(-2147483648));
    assert_eq!(parse_i32("007"), Some(7));
    assert_eq!(parse_i32("-0"), Some(0));
}

#[test]
fn rejects_what_is_not_a_number() {
    assert_eq!(parse_i32(""), None);
    assert_eq!(parse_i32("-"), None);
    assert_eq!(parse_i32("12a"), None);
    assert_eq!(parse_i32("a12"), None);
    assert_eq!(parse_i32(" 12"), None);
    assert_eq!(parse_i32("1 2"), None);
    assert_eq!(parse_i32("--5"), None);
    assert_eq!(parse_i32("+5"), None);
}

#[test]
fn rejects_out_of_range_values() {
    assert_eq!(parse_i32("2147483648"), None);
    assert_eq!(parse_i32("-2147483649"), None);
    assert_eq!(parse_i32("99999999999999999999"), None);
}

#[test]
fn round_trips_through_text() {
    for v in [0, 1, -1, 9, 10, -10, 120, -240, 65536, 2147483647, -2147483648] {
        assert_eq!(parse_i32(format_i32(v).as_str()), Some(v));
    }
}
