use date_utils::{NaiveDate, NaiveDateTime, YearHelper};

fn gen_date(year: i32, month: u32, day: u32) -> Option<NaiveDate> {
    NaiveDate::from_ymd_opt(year, month, day)
}

fn get_time_opt(
    year: i32,
    month: u32,
    day: u32,
    hour: u32,
    minute: u32,
    second: u32,
) -> Option<NaiveDateTime> {
    NaiveDate::from_ymd_opt(year, month, day)
        .and_then(|date| date.and_hms_opt(hour, minute, second))
}

fn last_instant(
    year: i32,
    month: u32,
    day: u32,
    hour: u32,
    minute: u32,
    second: u32,
) -> NaiveDateTime {
    NaiveDate::from_ymd_opt(year, month, day)
        .unwrap()
        .and_hms_nano_opt(hour, minute, second, 999_999_999)
        .unwrap()
}

fn last_instant_opt(
    year: i32,
    month: u32,
    day: u32,
    hour: u32,
    minute: u32,
    second: u32,
) -> Option<NaiveDateTime> {
    Some(last_instant(year, month, day, hour, minute, second))
}

#[test]
fn test_add_year() {
    let cur = NaiveDate::from_ymd_opt(2000, 1, 1).unwrap();
    let after = cur.add_years(3);
    let expect = NaiveDate::from_ymd_opt(2003, 1, 1).unwrap();
    assert_eq!(after, expect);
}

#[test]
fn test_since_year() {
    let before = NaiveDate::from_ymd_opt(2020, 3, 4).unwrap();
    let cur = NaiveDate::from_ymd_opt(2022, 1, 1).unwrap();
    let y = cur.years_since(before).unwrap();
    assert_eq!(y, 1);
}

#[test]
fn test_since_year1() {
    let before = NaiveDate::from_ymd_opt(2020, 3, 1).unwrap();
    let cur = NaiveDate::from_ymd_opt(2022, 3, 1).unwrap();
    let y = cur.years_since(before).unwrap();
    assert_eq!(y, 2);
}

#[test]
fn test_diff_calendar_years() {
    let before = NaiveDate::from_ymd_opt(2020, 3, 4).unwrap();
    let cur = NaiveDate::from_ymd_opt(2022, 1, 1).unwrap();
    let y = cur.diff_calendar_years(&before);
    assert_eq!(y, 2);
}

#[test]
fn test_diff_years_1() {
    let before = NaiveDate::from_ymd_opt(2020, 3, 4).unwrap();
    let cur = NaiveDate::from_ymd_opt(2022, 1, 1).unwrap();
    let y = before.diff_years(&cur);
    assert_eq!(y, -1);
}

#[test]
fn test_diff_calendar_years_time() {
    let before = NaiveDate::from_ymd_opt(2020, 1, 1)
        .unwrap()
        .and_hms_opt(0, 0, 0)
        .unwrap();

    let cur = NaiveDate::from_ymd_opt(2022, 1, 1)
        .unwrap()
        .and_hms_opt(0, 0, 0)
        .unwrap();
    let diff = cur.diff_years(&before);
    assert_eq!(diff, 2);
}

#[test]
fn test_diff_calendar_years_time1() {
    let before = NaiveDate::from_ymd_opt(2020, 1, 1)
        .unwrap()
        .and_hms_opt(0, 0, 1)
        .unwrap();

    let cur = NaiveDate::from_ymd_opt(2022, 1, 1)
        .unwrap()
        .and_hms_opt(0, 0, 0)
        .unwrap();
    let diff = cur.diff_years(&before);
    assert_eq!(diff, 1);
}

#[test]
fn test_diff_calendar_years_time2() {
    let before = NaiveDate::from_ymd_opt(2020, 3, 1)
        .unwrap()
        .and_hms_opt(0, 0, 0)
        .unwrap();

    let cur = NaiveDate::from_ymd_opt(2022, 3, 1)
        .unwrap()
        .and_hms_opt(0, 0, 0)
        .unwrap();
    let diff = cur.diff_years(&before);
    assert_eq!(diff, 2);
}

#[test]
fn test_datetime_begin_of_year() {
    let date = get_time_opt(2000, 6, 6, 6, 6, 6).unwrap();
    let result = date.begin_of_year();
    let actual = get_time_opt(2000, 1, 1, 0, 0, 0).unwrap();
    assert_eq!(result, actual);
}

#[test]
fn test_datetime_sub_years() {
    let date = get_time_opt(2000, 6, 6, 6, 6, 6).unwrap();
    let result = date.sub_years(2);
    let actual = get_time_opt(1998, 6, 6, 6, 6, 6).unwrap();
    assert_eq!(result, actual);
}

#[test]
fn test_date_sub_years() {
    let date = gen_date(2000, 6, 6).unwrap();
    let result = date.sub_years(2);
    let actual = gen_date(1998, 6, 6).unwrap();
    assert_eq!(result, actual);
}

#[test]
fn test_datetime_last_day_of_year() {
    let date = get_time_opt(2000, 6, 6, 6, 6, 6).unwrap();
    let result = date.last_day_of_year();
    let actual = get_time_opt(2000, 12, 31, 0, 0, 0).unwrap();
    assert_eq!(result, actual);
}

#[test]
fn test_date_last_day_of_year() {
    let date = gen_date(2000, 6, 6).unwrap();
    let result = date.last_day_of_year();
    let actual = gen_date(2000, 12, 31).unwrap();
    assert_eq!(result, actual);
}

#[test]
fn test_datetime_end_of_year() {
    let date = get_time_opt(2000, 6, 6, 6, 6, 6).unwrap();
    let result = date.end_of_year();
    let actual = last_instant_opt(2000, 12, 31, 23, 59, 59).unwrap();
    assert_eq!(result, actual);
}

#[test]
fn test_date_end_of_year() {
    let date = gen_date(2000, 6, 6).unwrap();
    let result = date.end_of_year();
    let actual = gen_date(2000, 12, 31).unwrap();
    assert_eq!(result, actual);
}

#[test]
fn test_datetime_is_same_year_true() {
    let one = get_time_opt(2000, 1, 1, 0, 0, 0).unwrap();
    let other = get_time_opt(2000, 12, 31, 23, 59, 59).unwrap();
    assert!(one.is_same_year(&other))
}

#[test]
fn test_datetime_is_same_year_false() {
    let one = get_time_opt(2000, 1, 1, 0, 0, 0).unwrap();
    let other = get_time_opt(2001, 1, 1, 0, 0, 0).unwrap();
    assert!(!one.is_same_year(&other))
}

#[test]
fn test_datetime_add_years() {
    let one = get_time_opt(2000, 6, 6, 6, 6, 6).unwrap();
    let other = one.add_years(8);
    let actual = get_time_opt(2008, 6, 6, 6, 6, 6).unwrap();
    assert_eq!(other, actual);
}

#[test]
fn test_datetime_calendar_diff_years() {
    let one = get_time_opt(2000, 6, 6, 6, 6, 6).unwrap();
    let actual = get_time_opt(2008, 6, 6, 0, 0, 0).unwrap();
    assert_eq!(actual.diff_calendar_years(&one), 8);
}
