//! Calendar arithmetic on civil dates and date-times: period boundaries,
//! calendar and elapsed differences, week and weekday resolution, and
//! stepwise enumeration of sub-periods.

pub mod calendar;
pub mod common;
pub mod date_operator;
pub mod datetime_operator;
pub mod day;
pub mod decade;
pub mod hour;
pub mod instant;
pub mod millisecond;
pub mod minute;
pub mod month;
pub mod naive_date;
pub mod naive_datetime;
pub mod naive_time;
pub mod now;
pub mod period;
mod primitive;
pub mod quarter;
pub mod range;
pub mod second;
pub mod today;
pub mod tomorrow;
pub mod utils;
pub mod week;
pub mod weekday;
pub mod weekend;
pub mod year;
pub mod yesterday;
pub mod yestoday;

pub use common::{is_exist, CommonHelper};
pub use date_operator::DateOperator;
pub use datetime_operator::DateTimeOperator;
pub use day::DayHelper;
pub use decade::DecadeHelper;
pub use hour::HourHelper;
pub use instant::Instant;
pub use millisecond::MillisecondHelper;
pub use minute::MinuteHelper;
pub use month::{MonthHelper, Range};
pub use naive_date::NaiveDate;
pub use naive_datetime::NaiveDateTime;
pub use naive_time::NaiveTime;
pub use now::{Now, Timestamp, ZoneNum, ZoneType};
pub use period::Period;
pub use quarter::{Quarter, QuarterHelper};
pub use range::{DateRange, DateSteps, DateTimeSteps, Step, TimeRange};
pub use second::SecondHelper;
pub use today::{
    begin_of_today, begin_of_today_at, end_of_today, end_of_today_at, today, today_at,
    DayTimeHelper, TodayHelper,
};
pub use tomorrow::{
    begin_of_tomorrow, begin_of_tomorrow_at, end_of_tomorrow, end_of_tomorrow_at, tomorrow,
    tomorrow_at, TomorrowHelper,
};
pub use utils::{hour2day, minute2day, minute2hour, second2day, second2hour, second2minute};
pub use week::WeekHelper;
pub use weekday::Weekday;
pub use year::YearHelper;
pub use yesterday::{
    begin_of_yesterday, begin_of_yesterday_at, end_of_yesterday, end_of_yesterday_at, yesterday,
    yesterday_at, YesterdayHelper,
};
pub use yestoday::{yestoday, yestoday_at, YestodayHelper};
