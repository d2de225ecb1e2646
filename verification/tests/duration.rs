use phantimer::decimal::parse_number;
use phantimer::duration::parse_duration;

#[test]
fn parses_seconds_minutes_and_hours() {
    assert_eq!(parse_duration("10s"), 10);
    assert_eq!(parse_duration("5m"), 300);
    assert_eq!(parse_duration("1h"), 3600);
}

#[test]
fn single_character_is_zero() {
    assert_eq!(parse_duration("7"), 0);
    assert_eq!(parse_duration("s"), 0);
    assert_eq!(parse_duration("é"), 0);
}

#[test]
fn empty_text_is_zero() {
    assert_eq!(parse_duration(""), 0);
}

#[test]
fn unreadable_count_is_zero() {
    assert_eq!(parse_duration("abcm"), 0);
    assert_eq!(parse_duration("-5s"), 0);
    assert_eq!(parse_duration("5 m"), 0);
    assert_eq!(parse_duration(" 5m"), 0);
    assert_eq!(parse_duration("1_0s"), 0);
    assert_eq!(parse_duration("+s"), 0);
    assert_eq!(parse_duration("++1s"), 0);
    assert_eq!(parse_duration("1.5h"), 0);
    assert_eq!(parse_duration("٣s"), 0);
}

#[test]
fn unknown_unit_counts_as_seconds() {
    assert_eq!(parse_duration("5x"), 5);
    assert_eq!(parse_duration("12"), 1);
    assert_eq!(parse_duration("90S"), 90);
    assert_eq!(parse_duration("5é"), 5);
    assert_eq!(parse_duration("3 "), 3);
}

#[test]
fn plus_sign_and_leading_zeros_are_read() {
    assert_eq!(parse_duration("+5s"), 5);
    assert_eq!(parse_duration("007m"), 420);
    assert_eq!(parse_duration("0h"), 0);
}

#[test]
fn count_at_the_limit_of_64_bits() {
    assert_eq!(parse_duration("18446744073709551615s"), u64::MAX);
    assert_eq!(parse_duration("18446744073709551616s"), 0);
    assert_eq!(parse_duration("99999999999999999999999s"), 0);
}

#[test]
fn product_beyond_64_bits_is_zero() {
    assert_eq!(parse_duration("307445734561825860m"), 18446744073709551600);
    assert_eq!(parse_duration("307445734561825861m"), 0);
    assert_eq!(parse_duration("5124095576030431h"), 18446744073709551600);
    assert_eq!(parse_duration("5124095576030432h"), 0);
    assert_eq!(parse_duration("18446744073709551615h"), 0);
}

#[test]
fn parse_number_agrees_with_the_standard_parser() {
    let samples = [
        "", "0", "7", "42", "+42", "-42", "+", "-", "++1", "+-1", "1+", "0005", "12a", "a12",
        " 1", "1 ", "18446744073709551615", "18446744073709551616", "+18446744073709551615",
        "184467440737095516150", "٣", "1٣", "00000000000000000000000001",
    ];
    for text in samples {
        assert_eq!(parse_number(text), text.parse::<u64>().ok(), "for {:?}", text);
    }
}

#[test]
fn parse_number_exact_values() {
    assert_eq!(parse_number("120"), Some(120));
    assert_eq!(parse_number("+9"), Some(9));
    assert_eq!(parse_number(""), None);
    assert_eq!(parse_number("+"), None);
    assert_eq!(parse_number("12x"), None);
}
