use task_manager::number::{decimal_text, parse_i32};

#[test]
fn decimal_text_of_small_numbers() {
    assert_eq!(decimal_text(0), "0");
    assert_eq!(decimal_text(7), "7");
    assert_eq!(decimal_text(10), "10");
    assert_eq!(decimal_text(42), "42");
    assert_eq!(decimal_text(100), "100");
    assert_eq!(decimal_text(1234567890), "1234567890");
}

#[test]
fn decimal_text_of_negative_numbers() {
    assert_eq!(decimal_text(-1), "-1");
    assert_eq!(decimal_text(-10), "-10");
    assert_eq!(decimal_text(-305), "-305");
}

#[test]
fn decimal_text_of_the_limits() {
    assert_eq!(decimal_text(i32::MAX), "2147483647");
    assert_eq!(decimal_text(i32::MIN), "-2147483648");
}

#[test]
fn decimal_text_agrees_with_std() {
    let mut n: i64 = i32::MIN as i64;
    while n <= i32::MAX as i64 {
        let value = n as i32;
        assert_eq!(decimal_text(value), value.to_string());
        n += 7_777_777;
    }
    let mut small: i32 = -1100;
    while small <= 1100 {
        assert_eq!(decimal_text(small), small.to_string());
        small += 1;
    }
}

#[test]
fn parse_i32_reads_digits() {
    assert_eq!(parse_i32("0"), Some(0));
    assert_eq!(parse_i32("7"), Some(7));
    assert_eq!(parse_i32("42"), Some(42));
    assert_eq!(parse_i32("007"), Some(7));
}

#[test]
fn parse_i32_reads_a_sign() {
    assert_eq!(parse_i32("+5"), Some(5));
    assert_eq!(parse_i32("-5"), Some(-5));
    assert_eq!(parse_i32("-0"), Some(0));
    assert_eq!(parse_i32("+0"), Some(0));
}

#[test]
fn parse_i32_needs_a_digit() {
    assert_eq!(parse_i32(""), None);
    assert_eq!(parse_i32("-"), None);
    assert_eq!(parse_i32("+"), None);
    assert_eq!(parse_i32("--1"), None);
    assert_eq!(parse_i32("+-1"), None);
}

#[test]
fn parse_i32_takes_digits_only() {
    assert_eq!(parse_i32("abc"), None);
    assert_eq!(parse_i32("12a"), None);
    assert_eq!(parse_i32("a12"), None);
    assert_eq!(parse_i32("1 2"), None);
    assert_eq!(parse_i32(" 12"), None);
    assert_eq!(parse_i32("12 "), None);
    assert_eq!(parse_i32("1.5"), None);
    assert_eq!(parse_i32("1e3"), None);
    assert_eq!(parse_i32("１２"), None);
    assert_eq!(parse_i32("1-"), None);
}

#[test]
fn parse_i32_keeps_to_the_range() {
    assert_eq!(parse_i32("2147483647"), Some(i32::MAX));
    assert_eq!(parse_i32("+2147483647"), Some(i32::MAX));
    assert_eq!(parse_i32("2147483648"), None);
    assert_eq!(parse_i32("-2147483648"), Some(i32::MIN));
    assert_eq!(parse_i32("-2147483649"), None);
    assert_eq!(parse_i32("99999999999999999999999999999"), None);
    assert_eq!(parse_i32("-99999999999999999999999999999"), None);
}

#[test]
fn parse_i32_takes_leading_zeros_of_any_length() {
    assert_eq!(parse_i32("000000000000000000000000000001"), Some(1));
    assert_eq!(parse_i32("-00000000000000000000002147483648"), Some(i32::MIN));
    assert_eq!(parse_i32("00000000000000000000002147483648"), None);
}

#[test]
fn parse_i32_agrees_with_std() {
    let samples = [
        "", "0", "-", "+", "1", "-1", "+1", "09", "2147483647", "2147483648", "-2147483648",
        "-2147483649", "abc", "1a", " 1", "1 ", "٣", "1_000", "0x10", "+-3", "4294967296",
        "000", "-000", "12345678901234567890",
    ];
    for sample in samples {
        assert_eq!(parse_i32(sample), sample.parse::<i32>().ok(), "sample {:?}", sample);
    }
}

#[test]
fn parse_i32_reads_back_what_decimal_text_wrote() {
    let values = [0, 1, -1, 9, 10, -10, 99, 100, 12345, -98765, i32::MAX, i32::MIN];
    for value in values {
        assert_eq!(parse_i32(decimal_text(value).as_str()), Some(value));
    }
}
