//! Tests of decimal parsing, rendering, unit conversion and truncation.

use weather_core::numeric::{
    i64_to_dec_string, kph_milli_to_mps_milli, parse_dec_milli, parse_int_i64, u64_to_dec_string,
};
use weather_core::text::truncate_body;
use weather_core::time::hour_of_day;

#[test]
fn decimal_text_parses_to_thousandths() {
    assert_eq!(parse_dec_milli("5.0"), Some(5000));
    assert_eq!(parse_dec_milli("5.25"), Some(5250));
    assert_eq!(parse_dec_milli("-3.5"), Some(-3500));
    assert_eq!(parse_dec_milli("36.0"), Some(36000));
    assert_eq!(parse_dec_milli("7"), Some(7000));
    assert_eq!(parse_dec_milli("0.1239"), Some(123));
}

#[test]
fn malformed_decimal_text_is_rejected() {
    assert_eq!(parse_dec_milli(""), None);
    assert_eq!(parse_dec_milli("-"), None);
    assert_eq!(parse_dec_milli("."), None);
    assert_eq!(parse_dec_milli("1."), None);
    assert_eq!(parse_dec_milli(".5"), None);
    assert_eq!(parse_dec_milli("1.2.3"), None);
    assert_eq!(parse_dec_milli("1e3"), None);
    assert_eq!(parse_dec_milli("12a"), None);
    // the milli-value would not fit a 64-bit integer
    assert_eq!(parse_dec_milli("99999999999999999999"), None);
}

#[test]
fn integer_text_parses_exactly() {
    assert_eq!(parse_int_i64("0"), Some(0));
    assert_eq!(parse_int_i64("1700000000"), Some(1700000000));
    assert_eq!(parse_int_i64("-86400"), Some(-86400));
    assert_eq!(parse_int_i64("9223372036854775807"), Some(i64::MAX));
    assert_eq!(parse_int_i64("9223372036854775808"), None);
    assert_eq!(parse_int_i64("1.5"), None);
    assert_eq!(parse_int_i64(""), None);
}

#[test]
fn wind_conversion_reproduces_exact_quotients() {
    // 36 km/h -> 10 m/s, exactly
    assert_eq!(kph_milli_to_mps_milli(36000), 10000);
    assert_eq!(kph_milli_to_mps_milli(7200), 2000);
    assert_eq!(kph_milli_to_mps_milli(0), 0);
    assert_eq!(kph_milli_to_mps_milli(-36000), -10000);
    // 10 km/h -> 2.777... m/s, truncated at the thousandth
    assert_eq!(kph_milli_to_mps_milli(10000), 2777);
}

#[test]
fn integers_render_as_decimal_text() {
    assert_eq!(u64_to_dec_string(0), "0");
    assert_eq!(u64_to_dec_string(12), "12");
    assert_eq!(i64_to_dec_string(-305), "-305");
    assert_eq!(i64_to_dec_string(1700000000), "1700000000");
    assert_eq!(i64_to_dec_string(i64::MIN), "-9223372036854775808");
}

#[test]
fn body_truncation_cuts_at_two_hundred_characters() {
    let short = "a".repeat(200);
    assert_eq!(truncate_body(&short), short);

    let long = "b".repeat(201);
    let cut = truncate_body(&long);
    assert_eq!(cut.len(), 203);
    assert_eq!(cut, format!("{}...", "b".repeat(200)));
}

#[test]
fn hour_of_day_is_the_utc_hour() {
    // 2025-03-10 12:00:00 UTC
    assert_eq!(hour_of_day(1741608000), 12);
    assert_eq!(hour_of_day(0), 0);
    assert_eq!(hour_of_day(86399), 23);
    // one second before the epoch is 23:59:59 UTC
    assert_eq!(hour_of_day(-1), 23);
    assert_eq!(hour_of_day(-86400), 0);
}
