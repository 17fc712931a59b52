use fishify::text::{decimal_string, duration_clock_format, right_aligned3_string, two_digit_string};

#[test]
fn clock_formatting() {
    assert_eq!(duration_clock_format(0), "0:00");
    assert_eq!(duration_clock_format(65), "1:05");
    assert_eq!(duration_clock_format(3600), "1:00:00");
    assert_eq!(duration_clock_format(3661), "1:01:01");
}

#[test]
fn clock_formatting_edges() {
    assert_eq!(duration_clock_format(59), "0:59");
    assert_eq!(duration_clock_format(3599), "59:59");
    assert_eq!(duration_clock_format(36000 + 59), "10:00:59");
}

#[test]
fn decimal_rendering() {
    assert_eq!(decimal_string(0), "0");
    assert_eq!(decimal_string(7), "7");
    assert_eq!(decimal_string(10), "10");
    assert_eq!(decimal_string(u64::MAX), u64::MAX.to_string());
    assert_eq!(two_digit_string(5), "05");
    assert_eq!(two_digit_string(42), "42");
    assert_eq!(right_aligned3_string(1), "  1");
    assert_eq!(right_aligned3_string(12), " 12");
    assert_eq!(right_aligned3_string(123), "123");
    assert_eq!(right_aligned3_string(1234), "1234");
}
