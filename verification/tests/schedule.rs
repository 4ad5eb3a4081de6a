use std::str::FromStr;

use chrono::{Datelike, Timelike};
use fourbuttons::calendar::{Date, DateTime, TimeOfDay, Weekday};
use fourbuttons::schedule::{
    days_from_monday, every_day, DailySchedule, Schedule, WeeklySchedule,
};

fn datetime(text: &str) -> DateTime {
    let parsed = chrono::NaiveDateTime::from_str(text).unwrap();
    DateTime::new(
        Date::from_num_days_from_ce_opt(parsed.num_days_from_ce()).unwrap(),
        TimeOfDay::from_num_seconds_from_midnight_opt(
            parsed.num_seconds_from_midnight(),
            parsed.nanosecond(),
        )
        .unwrap(),
    )
}

fn date(text: &str) -> Date {
    let parsed = chrono::NaiveDate::from_str(text).unwrap();
    Date::from_num_days_from_ce_opt(parsed.num_days_from_ce()).unwrap()
}

fn time(text: &str) -> TimeOfDay {
    let parsed = chrono::NaiveTime::from_str(text).unwrap();
    TimeOfDay::from_num_seconds_from_midnight_opt(
        parsed.num_seconds_from_midnight(),
        parsed.nanosecond(),
    )
    .unwrap()
}

#[test]
fn daily_same_day() {
    let schedule = Schedule::Daily(DailySchedule::new(time("09:00:00"), every_day()));
    assert_eq!(
        schedule.calculate_next_trigger(datetime("2020-01-01T08:00:00")),
        datetime("2020-01-01T09:00:00")
    );
}

#[test]
fn daily_next_day() {
    let schedule = Schedule::Daily(DailySchedule::new(time("09:00:00"), every_day()));
    assert_eq!(
        schedule.calculate_next_trigger(datetime("2020-01-01T10:00:00")),
        datetime("2020-01-02T09:00:00")
    );
}

#[test]
fn daily_next_day_week_boundary() {
    let schedule = Schedule::Daily(DailySchedule::new(time("09:00:00"), every_day()));
    assert_eq!(
        schedule.calculate_next_trigger(datetime("2020-01-05T10:00:00")),
        datetime("2020-01-06T09:00:00")
    );
}

#[test]
fn daily_same_week() {
    // Use weds as the test day
    let now = datetime("2020-01-01T10:00:00");
    assert_eq!(now.weekday(), Weekday::Wed);

    let schedule = Schedule::Daily(DailySchedule::new(time("08:00:00"), vec![Weekday::Fri]));
    // Next trigger is in the same week but earlier
    assert_eq!(
        schedule.calculate_next_trigger(now),
        datetime("2020-01-03T08:00:00")
    );

    // Next trigger is in the same week but later
    let schedule = Schedule::Daily(DailySchedule::new(time("10:00:00"), vec![Weekday::Fri]));
    assert_eq!(
        schedule.calculate_next_trigger(now),
        datetime("2020-01-03T10:00:00")
    );
}

#[test]
fn daily_next_week() {
    let now = datetime("2020-01-01T10:00:00");
    assert_eq!(now.weekday(), Weekday::Wed);

    // Next trigger is in the next week but earlier
    assert_eq!(datetime("2020-01-07T10:00:00").weekday(), Weekday::Tue);
    let schedule = Schedule::Daily(DailySchedule::new(time("08:00:00"), vec![Weekday::Tue]));
    assert_eq!(
        schedule.calculate_next_trigger(now),
        datetime("2020-01-07T08:00:00")
    );
    // Next trigger is in the next week but later
    let schedule = Schedule::Daily(DailySchedule::new(time("10:00:00"), vec![Weekday::Tue]));
    assert_eq!(
        schedule.calculate_next_trigger(now),
        datetime("2020-01-07T10:00:00")
    );
}

// A calendar for Jan 2020
//
//      Mon Tue Wed Thu Fri Sat Sun
// Wk1          01  02  03  04  05
// Wk2  06  07  08  09  10  11  12
// Wk3  13  14  15  16  17  18  19
// ...
#[test]
fn weekly_just_after_schedule_time() {
    let now = datetime("2020-01-01T10:00:00");
    assert_eq!(now.weekday(), Weekday::Wed);

    let schedule = Schedule::Weekly(WeeklySchedule::new(date("2020-01-01"), time("08:00:00"), 2));
    assert_eq!(
        schedule.calculate_next_trigger(now),
        datetime("2020-01-15T08:00:00")
    );
}

#[test]
fn weekly_just_before_schedule_time() {
    let now = datetime("2020-01-15T06:00:00");
    assert_eq!(now.weekday(), Weekday::Wed);

    let schedule = Schedule::Weekly(WeeklySchedule::new(date("2020-01-01"), time("08:00:00"), 2));
    assert_eq!(
        schedule.calculate_next_trigger(now),
        datetime("2020-01-15T08:00:00")
    );
}

#[test]
fn weekly_two_days_before() {
    let now = datetime("2020-01-13T06:00:00");
    assert_eq!(now.weekday(), Weekday::Mon);

    let schedule = Schedule::Weekly(WeeklySchedule::new(date("2020-01-01"), time("08:00:00"), 2));
    assert_eq!(
        schedule.calculate_next_trigger(now),
        datetime("2020-01-15T08:00:00")
    );
}

#[test]
fn weekly_two_days_after() {
    let now = datetime("2020-01-03T06:00:00");
    assert_eq!(now.weekday(), Weekday::Fri);

    let schedule = Schedule::Weekly(WeeklySchedule::new(date("2020-01-01"), time("08:00:00"), 2));
    assert_eq!(
        schedule.calculate_next_trigger(now),
        datetime("2020-01-15T08:00:00")
    );
}

#[test]
fn weekly_large_gap() {
    let now = datetime("2020-02-03T06:00:00");
    assert_eq!(now.weekday(), Weekday::Mon);

    let schedule = Schedule::Weekly(WeeklySchedule::new(date("2020-01-01"), time("08:00:00"), 2));
    assert_eq!(
        schedule.calculate_next_trigger(now),
        datetime("2020-02-12T08:00:00")
    );
}

#[test]
fn daily_only_today_after_the_time_is_a_week_away() {
    let now = datetime("2020-01-01T10:00:00");
    let schedule = DailySchedule::new(time("08:00:00"), vec![Weekday::Wed]);
    assert_eq!(schedule.advance_from(Weekday::Wed, false), 7);
    assert_eq!(
        schedule.calculate_next_trigger(now),
        datetime("2020-01-08T08:00:00")
    );
}

#[test]
fn daily_at_the_very_time_is_the_next_configured_day() {
    let now = datetime("2020-01-01T09:00:00");
    let schedule = DailySchedule::new(time("09:00:00"), every_day());
    assert_eq!(
        schedule.calculate_next_trigger(now),
        datetime("2020-01-02T09:00:00")
    );
}

#[test]
fn daily_takes_the_earliest_day_whatever_the_order_of_the_list() {
    // A Monday: Wednesday comes before Saturday.
    let now = datetime("2020-01-06T10:00:00");
    assert_eq!(now.weekday(), Weekday::Mon);
    let schedule = DailySchedule::new(time("06:00:00"), vec![Weekday::Sat, Weekday::Wed]);
    assert_eq!(
        schedule.calculate_next_trigger(now),
        datetime("2020-01-08T06:00:00")
    );
    // A Thursday: Saturday is left of this week.
    let now = datetime("2020-01-09T10:00:00");
    assert_eq!(
        schedule.calculate_next_trigger(now),
        datetime("2020-01-11T06:00:00")
    );
    // A Sunday: the first configured day of the next week is Wednesday.
    let now = datetime("2020-01-12T10:00:00");
    assert_eq!(
        schedule.calculate_next_trigger(now),
        datetime("2020-01-15T06:00:00")
    );
}

#[test]
fn daily_advance_for_every_pair_of_days() {
    let schedule = DailySchedule::new(time("08:00:00"), vec![Weekday::Tue, Weekday::Fri]);
    assert_eq!(schedule.advance_from(Weekday::Mon, true), 1);
    assert_eq!(schedule.advance_from(Weekday::Tue, true), 0);
    assert_eq!(schedule.advance_from(Weekday::Tue, false), 3);
    assert_eq!(schedule.advance_from(Weekday::Wed, false), 2);
    assert_eq!(schedule.advance_from(Weekday::Fri, true), 0);
    assert_eq!(schedule.advance_from(Weekday::Fri, false), 4);
    assert_eq!(schedule.advance_from(Weekday::Sat, true), 3);
    assert_eq!(schedule.advance_from(Weekday::Sun, false), 2);
}

#[test]
fn weekly_at_the_very_time_is_now() {
    let now = datetime("2020-01-15T08:00:00");
    let schedule = WeeklySchedule::new(date("2020-01-01"), time("08:00:00"), 2);
    assert_eq!(schedule.calculate_next_trigger(now), now);
    assert_eq!(
        schedule.calculate_next_trigger(datetime("2020-01-15T08:00:01")),
        datetime("2020-01-29T08:00:00")
    );
}

#[test]
fn weekly_advance_is_what_is_left_of_the_period() {
    let schedule = WeeklySchedule::new(date("2020-01-01"), time("08:00:00"), 3);
    assert_eq!(schedule.advance_from(0, false), 0);
    assert_eq!(schedule.advance_from(0, true), 21);
    assert_eq!(schedule.advance_from(1, false), 20);
    assert_eq!(schedule.advance_from(20, true), 1);
    assert_eq!(schedule.advance_from(21, false), 0);
    assert_eq!(schedule.advance_from(43, false), 20);
}

#[test]
fn weekly_before_the_anchor_is_not_supported() {
    let schedule = Schedule::Weekly(WeeklySchedule::new(date("2020-01-01"), time("08:00:00"), 2));
    let now = datetime("2019-12-31T23:59:59");
    assert!(!schedule.is_supported(now));
    assert_eq!(schedule.checked_next_trigger(now), None);
    let now = datetime("2020-01-01T00:00:00");
    assert!(schedule.is_supported(now));
    assert_eq!(
        schedule.checked_next_trigger(now),
        Some(datetime("2020-01-01T08:00:00"))
    );
}

#[test]
fn the_end_of_the_calendar_is_not_supported() {
    let last = Date::from_num_days_from_ce_opt(
        chrono::NaiveDate::MAX.num_days_from_ce(),
    )
    .unwrap();
    let now = DateTime::new(last, time("10:00:00"));
    let daily = DailySchedule::new(time("09:00:00"), every_day());
    assert!(!daily.is_supported(now));
    assert_eq!(daily.checked_next_trigger(now), None);
    let later = DailySchedule::new(time("11:00:00"), every_day());
    assert_eq!(
        later.checked_next_trigger(now),
        Some(DateTime::new(last, time("11:00:00")))
    );
    let weekly = WeeklySchedule::new(date("2020-01-01"), time("08:00:00"), 1);
    assert_eq!(weekly.checked_next_trigger(now), None);
}

#[test]
fn every_day_is_the_week_from_monday() {
    assert_eq!(
        every_day(),
        vec![
            Weekday::Mon,
            Weekday::Tue,
            Weekday::Wed,
            Weekday::Thu,
            Weekday::Fri,
            Weekday::Sat,
            Weekday::Sun
        ]
    );
    assert_eq!(days_from_monday(Weekday::Mon), 0);
    assert_eq!(days_from_monday(Weekday::Thu), 3);
    assert_eq!(days_from_monday(Weekday::Sun), 6);
}
