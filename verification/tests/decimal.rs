use console_calc::decimal::{format_i32, format_u32, parse_u32};

#[test]
fn parse_u32_reads_digits() {
    assert_eq!(parse_u32("0"), Some(0));
    assert_eq!(parse_u32("7"), Some(7));
    assert_eq!(parse_u32("42"), Some(42));
    assert_eq!(parse_u32("2024"), Some(2024));
    assert_eq!(parse_u32("1234567890"), Some(1234567890));
}

#[test]
fn parse_u32_reads_up_to_the_largest_number() {
    assert_eq!(parse_u32("4294967295"), Some(u32::MAX));
    assert_eq!(parse_u32("4294967294"), Some(u32::MAX - 1));
    assert_eq!(parse_u32("4294967296"), None);
    assert_eq!(parse_u32("4294967300"), None);
    assert_eq!(parse_u32("5000000000"), None);
    assert_eq!(parse_u32("42949672950"), None);
    assert_eq!(parse_u32("340282366920938463463374607431768211456"), None);
}

#[test]
fn parse_u32_takes_a_plus_sign_and_leading_zeros() {
    assert_eq!(parse_u32("+5"), Some(5));
    assert_eq!(parse_u32("+0"), Some(0));
    assert_eq!(parse_u32("007"), Some(7));
    assert_eq!(parse_u32("+0000000000004294967295"), Some(u32::MAX));
}

#[test]
fn parse_u32_refuses_everything_else() {
    for text in [
        "", "+", "-", "-0", "-5", "++5", "+-5", "5+", " 5", "5 ", "5\n", "5.0", "5e2", "0x5",
        "five", "5_000", "٥", "５", "1٥",
    ] {
        assert_eq!(parse_u32(text), None, "{:?}", text);
    }
}

#[test]
fn parse_u32_agrees_with_the_standard_library() {
    for text in [
        "", "0", "00", "+", "+1", "-1", "1+", "12a", "a12", "4294967295", "4294967296",
        "+4294967295", "+4294967296", "0000000000000000000000000000001", " 1", "1 ", "١٢",
    ] {
        assert_eq!(parse_u32(text), text.parse::<u32>().ok(), "{:?}", text);
    }
}

#[test]
fn format_u32_writes_digits_without_leading_zeros() {
    assert_eq!(format_u32(0), "0");
    assert_eq!(format_u32(1), "1");
    assert_eq!(format_u32(9), "9");
    assert_eq!(format_u32(10), "10");
    assert_eq!(format_u32(2024), "2024");
    assert_eq!(format_u32(1000000), "1000000");
    assert_eq!(format_u32(u32::MAX), "4294967295");
}

#[test]
fn format_i32_writes_a_minus_sign_for_negative_numbers() {
    assert_eq!(format_i32(0), "0");
    assert_eq!(format_i32(2024), "2024");
    assert_eq!(format_i32(-1), "-1");
    assert_eq!(format_i32(-44), "-44");
    assert_eq!(format_i32(i32::MAX), "2147483647");
    assert_eq!(format_i32(i32::MIN), "-2147483648");
}

#[test]
fn formats_agree_with_the_standard_library() {
    let mut n: u32 = 0;
    for step in 0..2000_u32 {
        assert_eq!(format_u32(n), n.to_string());
        let v = n as i32;
        assert_eq!(format_i32(v), v.to_string());
        n = n.wrapping_mul(1664525).wrapping_add(1013904223).wrapping_add(step);
    }
}

#[test]
fn what_format_u32_writes_parse_u32_reads_back() {
    for n in [0, 1, 4, 9, 10, 99, 100, 2024, 65535, 65536, 999999999, 1000000000, u32::MAX] {
        assert_eq!(parse_u32(&format_u32(n)), Some(n));
    }
}
