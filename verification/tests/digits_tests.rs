use monitor_switcher::digits::{parse_i32, parse_u32, u64_to_string};

#[test]
fn parse_u32_handles_bounds() {
    assert_eq!(parse_u32("0"), Some(0));
    assert_eq!(parse_u32("1920"), Some(1920));
    assert_eq!(parse_u32("4294967295"), Some(u32::MAX));
    assert_eq!(parse_u32("4294967296"), None);
    assert_eq!(parse_u32(""), None);
    assert_eq!(parse_u32("12a"), None);
    assert_eq!(parse_u32("-3"), None);
}

#[test]
fn parse_i32_handles_signs_and_bounds() {
    assert_eq!(parse_i32("0"), Some(0));
    assert_eq!(parse_i32("-100"), Some(-100));
    assert_eq!(parse_i32("2147483647"), Some(i32::MAX));
    assert_eq!(parse_i32("2147483648"), None);
    assert_eq!(parse_i32("-2147483648"), Some(i32::MIN));
    assert_eq!(parse_i32("-2147483649"), None);
    assert_eq!(parse_i32("-"), None);
    assert_eq!(parse_i32(""), None);
    assert_eq!(parse_i32("+3"), None);
}

#[test]
fn u64_to_string_formats_decimals() {
    assert_eq!(u64_to_string(0), "0");
    assert_eq!(u64_to_string(7), "7");
    assert_eq!(u64_to_string(1080), "1080");
    assert_eq!(u64_to_string(u64::MAX), "18446744073709551615");
}
