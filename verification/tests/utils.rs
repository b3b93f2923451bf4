use date_utils::utils::is_leap_year;
use date_utils::{hour2day, minute2day, minute2hour, second2day, second2hour, second2minute};

#[test]
fn utils_test_is_leap_year() {
    assert!(is_leap_year(2000));
    assert!(!is_leap_year(1900));
    assert!(!is_leap_year(2003));
    assert!(is_leap_year(2004));
}

#[test]
fn test_second2minute() {
    let second = 61;
    let result = second2minute(second);
    assert_eq!(result, 1);
}

#[test]
fn test_second2hour() {
    let second = 3601;
    let result = second2hour(second);
    assert_eq!(result, 1);
}

#[test]
fn test_second2day() {
    let second = 86401;
    let result = second2day(second);
    assert_eq!(result, 1);
}

#[test]
fn test_minute2hour() {
    let minute = 61;
    let result = minute2hour(minute);
    assert_eq!(result, 1);
}

#[test]
fn test_minute2day() {
    let minute = 1441;
    let result = minute2day(minute);
    assert_eq!(result, 1)
}

#[test]
fn test_hour2day() {
    let hour = 25;
    let result = hour2day(hour);
    assert_eq!(result, 1);
}
