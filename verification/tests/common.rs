use date_utils::{
    CommonHelper, HourHelper, MonthHelper, NaiveDate, NaiveDateTime, Now, is_exist, today,
};

fn get_date(year: i32, month: u32, day: u32) -> Option<NaiveDate> {
    NaiveDate::from_ymd_opt(year, month, day)
}

fn get_time_opt(
    year: i32,
    month: u32,
    day: u32,
    hour: u32,
    minute: u32,
    second: u32,
) -> Option<NaiveDateTime> {
    NaiveDate::from_ymd_opt(year, month, day)
        .and_then(|date| date.and_hms_opt(hour, minute, second))
}

#[test]
fn test_is_exist() {
    assert!(is_exist(2000, 6, 6));
    assert!(!is_exist(2000, 13, 6));
    assert!(!is_exist(2000, 6, 32));
}

#[test]
fn test_date_is_same_true() {
    let one = get_date(2000, 6, 6).unwrap();
    let other = get_date(2000, 6, 6).unwrap();
    assert!(one.is_same(&other))
}

#[test]
fn test_date_is_same_false() {
    let one = get_date(2000, 6, 6).unwrap();
    let other = get_date(2000, 6, 7).unwrap();
    assert!(!one.is_same(&other))
}

#[test]
fn test_date_is_future_true() {
    let now = today();
    let one = now.add_months(1);
    assert!(one.is_future());
}

#[test]
fn test_date_is_future_false() {
    let now = today();
    let one = now.sub_months(1);
    assert!(!one.is_future());
}

#[test]
fn test_date_is_past_true() {
    let now = today();
    let one = now.sub_months(1);
    assert!(one.is_past());
}

#[test]
fn test_date_is_past_false() {
    let now = today();
    let one = now.add_months(1);
    assert!(!one.is_past());
}

#[test]
fn test_close_to() {
    let dates = vec![
        get_date(2000, 6, 6).unwrap(),
        get_date(2000, 6, 7).unwrap(),
        get_date(2000, 6, 8).unwrap(),
    ];
    let date = get_date(2000, 6, 5).unwrap();
    assert_eq!(
        date.closest_to(&dates).unwrap(),
        get_date(2000, 6, 6).unwrap()
    );
}

#[test]
fn test_close_to_index() {
    let dates = vec![
        get_date(2000, 6, 6).unwrap(),
        get_date(2000, 6, 7).unwrap(),
        get_date(2000, 6, 8).unwrap(),
    ];
    let date = get_date(2000, 6, 5).unwrap();
    assert_eq!(date.closest_to_index(&dates).unwrap(), 0);
}

#[test]
fn test_before_true() {
    let one = get_time_opt(2000, 6, 6, 0, 0, 0).unwrap();
    let other = get_time_opt(2001, 1, 1, 0, 0, 0).unwrap();
    assert!(one.before(&other));
}

#[test]
fn test_before_false() {
    let other = get_time_opt(2000, 6, 6, 0, 0, 0).unwrap();
    let one = get_time_opt(2001, 1, 1, 0, 0, 0).unwrap();
    assert!(!one.before(&other));
}

#[test]
fn test_after_true() {
    let other = get_time_opt(2000, 6, 6, 0, 0, 0).unwrap();
    let one = get_time_opt(2001, 1, 1, 0, 0, 0).unwrap();
    assert!(one.after(&other));
}

#[test]
fn test_after_false() {
    let one = get_time_opt(2000, 6, 6, 0, 0, 0).unwrap();
    let other = get_time_opt(2001, 1, 1, 0, 0, 0).unwrap();
    assert!(!one.after(&other));
}

#[test]
fn test_is_same_true() {
    let other = get_time_opt(2000, 6, 6, 0, 0, 0).unwrap();
    let one = get_time_opt(2000, 6, 6, 0, 0, 0).unwrap();
    assert!(one.is_same(&other));
}

#[test]
fn test_is_same_false() {
    let one = get_time_opt(2000, 6, 6, 0, 0, 0).unwrap();
    let other = get_time_opt(2001, 1, 1, 0, 0, 0).unwrap();
    assert!(!one.is_same(&other));
}

#[test]
fn test_is_future_true() {
    let now = Now::utc();
    let one = now.add_hours(3);
    assert!(one.is_future());
}

#[test]
fn test_is_future_false() {
    let now = Now::utc();
    let one = now.sub_hours(3);
    assert!(!one.is_future());
}

#[test]
fn test_is_past_true() {
    let now = Now::utc();
    let one = now.sub_hours(3);
    assert!(one.is_past());
}

#[test]
fn test_is_past_false() {
    let now = Now::utc();
    let one = now.add_hours(3);
    assert!(!one.is_past());
}

#[test]
fn test_closet_to() {
    let now = Now::utc();
    let one = now.add_hours(3);
    let two = now.add_hours(2);
    let three = now.add_hours(1);
    assert_eq!(one.closest_to(&[two, three]), Some(two));
}

#[test]
fn test_closet_to_index() {
    let now = Now::utc();
    let one = now.add_hours(3);
    let two = now.add_hours(2);
    let three = now.add_hours(1);
    assert_eq!(one.closest_to_index(&[two, three]), Some(0));
}
