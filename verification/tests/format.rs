//! The pure text formatters: exact expected strings, edge values included.

use redblocks::text::{
    celsius_string, charging_string, dec_string, int_string, join_strings, mem_string,
    minutes_string, percent_string, two_dec_string,
};

#[test]
fn decimal_digits() {
    assert_eq!(dec_string(0), "0");
    assert_eq!(dec_string(7), "7");
    assert_eq!(dec_string(10), "10");
    assert_eq!(dec_string(90210), "90210");
    assert_eq!(dec_string(u64::MAX), "18446744073709551615");
}

#[test]
fn signed_decimal() {
    assert_eq!(int_string(0), "0");
    assert_eq!(int_string(42), "42");
    assert_eq!(int_string(-5), "-5");
    assert_eq!(int_string(i64::MIN), "-9223372036854775808");
}

#[test]
fn two_decimal_rounding_trims_zeros() {
    assert_eq!(two_dec_string(0), "0");
    assert_eq!(two_dec_string(250), "2.5");
    assert_eq!(two_dec_string(300), "3");
    assert_eq!(two_dec_string(123), "1.23");
    assert_eq!(two_dec_string(105), "1.05");
    assert_eq!(two_dec_string(100000), "1000");
}

#[test]
fn memory_unit_thresholds() {
    assert_eq!(mem_string(500), "500 Kb");
    assert_eq!(mem_string(2500), "2.5 Mb");
    assert_eq!(mem_string(3000000), "3 Gb");
}

#[test]
fn memory_edges() {
    assert_eq!(mem_string(0), "0 Kb");
    assert_eq!(mem_string(999), "999 Kb");
    assert_eq!(mem_string(1000), "1 Mb");
    assert_eq!(mem_string(1234), "1.23 Mb");
    assert_eq!(mem_string(999999), "1000 Mb");
    assert_eq!(mem_string(1000000), "1 Gb");
    assert_eq!(mem_string(2550000), "2.55 Gb");
    assert_eq!(mem_string(16384000), "16.38 Gb");
}

#[test]
fn percent_two_decimals() {
    assert_eq!(percent_string(0), "0%");
    assert_eq!(percent_string(1234), "12.34%");
    assert_eq!(percent_string(1230), "12.3%");
    assert_eq!(percent_string(1200), "12%");
    assert_eq!(percent_string(5), "0.05%");
    assert_eq!(percent_string(10000), "100%");
}

#[test]
fn time_remaining_minutes_and_hours() {
    assert_eq!(minutes_string(45), "45m");
    assert_eq!(minutes_string(125), "2h");
    assert_eq!(minutes_string(0), "0m");
    assert_eq!(minutes_string(59), "59m");
    assert_eq!(minutes_string(60), "1h");
    assert_eq!(minutes_string(89), "1h");
    assert_eq!(minutes_string(90), "2h");
}

#[test]
fn time_remaining_charging() {
    assert_eq!(charging_string(45), "45m (Charging)");
    assert_eq!(charging_string(125), "2h (Charging)");
}

#[test]
fn celsius_rendering() {
    assert_eq!(celsius_string(36), "36 °C");
    assert_eq!(celsius_string(-3), "-3 °C");
}

#[test]
fn joining_with_separator() {
    let texts: Vec<String> = vec![];
    assert_eq!(join_strings(&texts, " | "), "");
    let texts = vec!["A".to_string()];
    assert_eq!(join_strings(&texts, " | "), "A");
    let texts = vec!["A".to_string(), "B".to_string(), "C".to_string()];
    assert_eq!(join_strings(&texts, " | "), "A | B | C");
    assert_eq!(join_strings(&texts, ""), "ABC");
}
