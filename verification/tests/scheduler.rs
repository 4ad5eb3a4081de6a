use std::str::FromStr;

use chrono::{Datelike, Timelike};
use fourbuttons::activity::Activity;
use fourbuttons::calendar::{Date, DateTime, Duration, TimeOfDay, Weekday};
use fourbuttons::schedule::{every_day, DailySchedule, Schedule, WeeklySchedule};
use fourbuttons::scheduler::{ScheduledJobSpec, Scheduler};

fn at(text: &str) -> DateTime {
    let parsed = chrono::NaiveDateTime::from_str(text).unwrap();
    DateTime::new(
        Date::from_num_days_from_ce_opt(parsed.num_days_from_ce()).unwrap(),
        TimeOfDay::from_num_seconds_from_midnight_opt(
            parsed.num_seconds_from_midnight(),
            parsed.nanosecond(),
        )
        .unwrap(),
    )
}

fn time_of_day(text: &str) -> TimeOfDay {
    let parsed = chrono::NaiveTime::from_str(text).unwrap();
    TimeOfDay::from_num_seconds_from_midnight_opt(
        parsed.num_seconds_from_midnight(),
        parsed.nanosecond(),
    )
    .unwrap()
}

fn daily_at_eight() -> ScheduledJobSpec {
    ScheduledJobSpec::new(
        Schedule::Daily(DailySchedule::new(time_of_day("08:00:00"), every_day())),
        Activity::I,
        Duration::hours(1),
    )
}

#[test]
fn regular_ticks() {
    let now = at("2020-01-01T07:59:00");
    let job_spec = daily_at_eight();
    let mut sched = Scheduler::new(now, &[job_spec]);

    assert_eq!(sched.tick(now), vec![]);
    // Advance to scheduled time, see activity
    let now = at("2020-01-01T08:00:00");
    assert_eq!(sched.tick(now), vec![Activity::I]);

    // Run again at scheduled time, don't see activity
    let now = at("2020-01-01T08:00:00");
    assert_eq!(sched.tick(now), vec![]);

    // Advance past scheduled time
    let now = at("2020-01-01T08:00:01");
    assert_eq!(sched.tick(now), vec![]);
}

#[test]
fn within_grace_period() {
    let now = at("2020-01-01T07:59:00");
    let job_spec = daily_at_eight();
    let mut sched = Scheduler::new(now, &[job_spec]);

    // Just before end of grace period
    let now = at("2020-01-01T09:00:00");
    assert_eq!(sched.tick(now), vec![Activity::I]);
}

#[test]
fn outside_of_grace_period() {
    let now = at("2020-01-01T07:59:00");
    let job_spec = daily_at_eight();
    let mut sched = Scheduler::new(now, &[job_spec]);

    // Just outside of grace period
    let now = at("2020-01-01T09:00:01");
    assert_eq!(sched.tick(now), vec![]);
}

#[test]
fn a_lapsed_job_is_due_again_the_next_day() {
    let mut sched = Scheduler::new(at("2020-01-01T07:59:00"), &[daily_at_eight()]);
    assert_eq!(sched.tick(at("2020-01-01T09:00:01")), vec![]);
    // The trigger moved to the next day: nothing at any time of this one.
    assert_eq!(sched.tick(at("2020-01-01T23:59:59")), vec![]);
    assert_eq!(sched.tick(at("2020-01-02T07:59:59")), vec![]);
    assert_eq!(sched.tick(at("2020-01-02T08:00:00")), vec![Activity::I]);
}

#[test]
fn one_nanosecond_past_the_grace_period_is_too_late() {
    let start = at("2020-01-01T07:59:00");
    let mut sched = Scheduler::new(start, &[daily_at_eight()]);
    let late = DateTime::new(
        start.date(),
        TimeOfDay::from_hms_nano_opt(9, 0, 0, 1).unwrap(),
    );
    assert_eq!(sched.tick(late), vec![]);
    let mut sched = Scheduler::new(start, &[daily_at_eight()]);
    let in_time = DateTime::new(
        start.date(),
        TimeOfDay::from_hms_nano_opt(8, 59, 59, 999_999_999).unwrap(),
    );
    assert_eq!(sched.tick(in_time), vec![Activity::I]);
}

#[test]
fn jobs_fire_in_the_order_of_their_descriptions() {
    let now = at("2020-01-01T05:00:00");
    let specs = [
        ScheduledJobSpec::new(
            Schedule::Daily(DailySchedule::new(time_of_day("06:00:00"), every_day())),
            Activity::TakePills,
            Duration::hours(1),
        ),
        ScheduledJobSpec::new(
            Schedule::Daily(DailySchedule::new(time_of_day("11:00:00"), every_day())),
            Activity::TakePillsReminder,
            Duration::hours(1),
        ),
        ScheduledJobSpec::new(
            Schedule::Daily(DailySchedule::new(
                time_of_day("06:00:00"),
                vec![Weekday::Sat, Weekday::Wed],
            )),
            Activity::WaterPlants,
            Duration::hours(1),
        ),
        ScheduledJobSpec::new(
            Schedule::Weekly(WeeklySchedule::new(
                at("2020-01-01T00:00:00").date(),
                time_of_day("06:00:00"),
                2,
            )),
            Activity::I,
            Duration::hours(12),
        ),
    ];
    let mut sched = Scheduler::new(now, &specs);
    assert_eq!(sched.tick(at("2020-01-01T05:59:59")), vec![]);
    assert_eq!(
        sched.tick(at("2020-01-01T06:00:30")),
        vec![Activity::TakePills, Activity::WaterPlants, Activity::I]
    );
    assert_eq!(sched.tick(at("2020-01-01T06:00:31")), vec![]);
    assert_eq!(
        sched.tick(at("2020-01-01T11:30:00")),
        vec![Activity::TakePillsReminder]
    );
    // Thursday: pills only. The plants wait for Saturday, the third for two weeks.
    assert_eq!(
        sched.tick(at("2020-01-02T06:00:00")),
        vec![Activity::TakePills]
    );
}

#[test]
fn a_second_tick_at_the_same_instant_fires_nothing_more() {
    let specs = [
        daily_at_eight(),
        ScheduledJobSpec::new(
            Schedule::Daily(DailySchedule::new(time_of_day("08:00:00"), vec![Weekday::Wed])),
            Activity::WaterPlants,
            Duration::seconds(0),
        ),
    ];
    let mut sched = Scheduler::new(at("2020-01-01T07:00:00"), &specs);
    let now = at("2020-01-01T08:00:00");
    assert_eq!(sched.tick(now), vec![Activity::I, Activity::WaterPlants]);
    assert_eq!(sched.tick(now), vec![]);
    assert_eq!(sched.tick(now), vec![]);
}

#[test]
fn a_weekly_job_ticked_at_its_very_trigger_fires_each_time() {
    let spec = ScheduledJobSpec::new(
        Schedule::Weekly(WeeklySchedule::new(
            at("2020-01-01T00:00:00").date(),
            time_of_day("08:00:00"),
            2,
        )),
        Activity::I,
        Duration::hours(12),
    );
    let mut sched = Scheduler::new(at("2020-01-01T07:00:00"), &[spec]);
    let now = at("2020-01-01T08:00:00");
    assert_eq!(sched.tick(now), vec![Activity::I]);
    assert_eq!(sched.tick(now), vec![Activity::I]);
    // A second later the trigger has moved on by the period.
    let now = at("2020-01-01T08:00:01");
    assert_eq!(sched.tick(now), vec![Activity::I]);
    assert_eq!(sched.tick(now), vec![]);
    assert_eq!(sched.tick(at("2020-01-15T08:00:01")), vec![Activity::I]);
}

#[test]
fn try_new_and_try_tick_refuse_what_a_schedule_does_not_support() {
    let spec = ScheduledJobSpec::new(
        Schedule::Weekly(WeeklySchedule::new(
            at("2020-01-08T00:00:00").date(),
            time_of_day("08:00:00"),
            1,
        )),
        Activity::I,
        Duration::hours(1),
    );
    assert!(Scheduler::try_new(at("2020-01-07T10:00:00"), &[spec]).is_none());
    let mut sched = Scheduler::try_new(at("2020-01-08T07:00:00"), &[spec]).unwrap();
    // A tick before the anchor finds nothing due, so nothing is worked out.
    assert!(sched.is_tickable(at("2020-01-07T10:00:00")));
    assert_eq!(sched.try_tick(at("2020-01-07T10:00:00")), Some(vec![]));
    assert_eq!(
        sched.try_tick(at("2020-01-08T08:00:00")),
        Some(vec![Activity::I])
    );
    let empty: Vec<Activity> = Scheduler::try_new(at("2020-01-07T10:00:00"), &[])
        .unwrap()
        .tick(at("2020-01-07T10:00:00"));
    assert_eq!(empty, vec![]);
}
