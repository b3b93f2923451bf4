use date_utils::{DayHelper, NaiveDate, NaiveDateTime};

fn get_date(year: i32, month: u32, day: u32) -> Option<NaiveDate> {
    NaiveDate::from_ymd_opt(year, month, day)
}

fn get_time_opt(
    year: i32,
    month: u32,
    day: u32,
    hour: u32,
    minute: u32,
    second: u32,
) -> Option<NaiveDateTime> {
    NaiveDate::from_ymd_opt(year, month, day)
        .and_then(|date| date.and_hms_opt(hour, minute, second))
}

#[test]
fn day_helper_test_date_begin_of_day() {
    let date = get_date(2000, 1, 1).unwrap();
    assert_eq!(date, date.begin_of_day());
}

#[test]
fn day_helper_test_date_end_of_day() {
    let date = get_date(2000, 1, 1).unwrap();
    assert_eq!(date, date.end_of_day());
}

#[test]
fn day_helper_test_datetime_is_same_day_true() {
    let one = get_time_opt(2000, 1, 1, 0, 0, 0).unwrap();
    let other = get_time_opt(2000, 1, 1, 23, 59, 59).unwrap();
    assert!(one.is_same_day(&other))
}

#[test]
fn day_helper_test_datetime_is_same_day_false() {
    let one = get_time_opt(2000, 1, 1, 0, 0, 0).unwrap();
    let other = get_time_opt(2000, 1, 2, 0, 0, 0).unwrap();
    assert!(!one.is_same_day(&other))
}

#[test]
fn day_helper_test_date_add_days() {
    let date = get_date(2000, 1, 1);
    let result = date.map(|date| date.add_days(8));
    let actual = get_date(2000, 1, 9);
    assert_eq!(result, actual)
}

#[test]
fn day_helper_test_datetime_date_days() {
    let datetime = get_time_opt(2000, 1, 1, 0, 0, 0);
    let result = datetime.map(|datetime| datetime.add_days(8));
    let actual = get_time_opt(2000, 1, 9, 0, 0, 0);
    assert_eq!(result, actual);
}

#[test]
fn day_helper_test_date_sub_days() {
    let date = get_date(2000, 1, 9);
    let result = date.map(|date| date.sub_days(8));
    let actual = get_date(2000, 1, 1);
    assert_eq!(result, actual)
}

#[test]
fn day_helper_test_datetime_sub_days() {
    let time = get_time_opt(2000, 1, 9, 6, 0, 0);
    let result = time.map(|time| time.sub_days(8));
    let actual = get_time_opt(2000, 1, 1, 6, 0, 0);
    assert_eq!(result, actual)
}

#[test]
fn day_helper_test_date_diff_days() {
    let one = get_date(2000, 1, 9).unwrap();
    let other = get_date(2000, 1, 1).unwrap();
    let result = one.diff_days(&other);
    assert_eq!(result, 8);
}

#[test]
fn day_helper_test_datetime_diff_days() {
    let one = get_time_opt(2000, 1, 1, 12, 0, 0).unwrap();
    let other = get_time_opt(2000, 1, 9, 0, 0, 0).unwrap();
    let result = other.diff_days(&one);
    assert_eq!(result, 7);
}

#[test]
fn day_helper_test_date_diff_calendar_days() {
    let one = get_date(2000, 1, 9);
    let other = get_date(2000, 1, 1);
    let result = one.and_then(|one| other.map(|other| one.diff_calendar_days(&other)));
    assert_eq!(result, Some(8))
}

#[test]
fn day_helper_test_datetime_diff_calendar_days() {
    let one = get_time_opt(2000, 1, 9, 0, 0, 0);
    let other = get_time_opt(2000, 1, 1, 12, 0, 0);
    let result = one.and_then(|one| other.map(|other| one.diff_calendar_days(&other)));
    assert_eq!(result, Some(8));
}

#[test]
fn test_date_day_of_year() {
    let date = get_date(2000, 3, 2);
    let result = date.map(|date| date.day_of_year());
    assert_eq!(result, Some(62))
}

#[test]
fn test_datetime_day_of_year() {
    let time = get_time_opt(2000, 3, 2, 0, 0, 0);
    let result = time.map(|date| date.day_of_year());
    assert_eq!(result, Some(62));
}
