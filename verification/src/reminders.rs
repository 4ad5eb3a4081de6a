//! The chores that the appliance reminds of, and when.

use crate::activity::Activity;
use crate::calendar::{Date, Duration, TimeOfDay, Weekday, NANOS_PER_SEC};
use crate::schedule::{every_day, every_weekday, DailySchedule, Schedule, WeeklySchedule};
use crate::scheduler::ScheduledJobSpec;
use vstd::prelude::*;

verus! {

/// Whether a description is that of a job which brings up `activity` on the
/// days of `days` at `hour` o'clock, with an hour of grace.
pub open spec fn is_daily(
    spec: ScheduledJobSpec,
    activity: Activity,
    hour: int,
    days: Seq<Weekday>,
) -> bool {
    &&& spec.activity() == activity
    &&& spec.grace_period().total_nanos() == 3600 * NANOS_PER_SEC
    &&& spec.schedule() matches Schedule::Daily(daily)
    &&& daily.time().nanos_since_midnight() == hour * 3600 * NANOS_PER_SEC
    &&& forall|day: Weekday| daily.days().contains(day) == days.contains(day)
}

/// Whether a description is that of a job which brings up `activity` every
/// second week from the day with number `anchor` on, at `hour` o'clock, with
/// twelve hours of grace.
pub open spec fn is_fortnightly(
    spec: ScheduledJobSpec,
    activity: Activity,
    hour: int,
    anchor: int,
) -> bool {
    &&& spec.activity() == activity
    &&& spec.grace_period().total_nanos() == 12 * 3600 * NANOS_PER_SEC
    &&& spec.schedule() matches Schedule::Weekly(weekly)
    &&& weekly.time().nanos_since_midnight() == hour * 3600 * NANOS_PER_SEC
    &&& weekly.start_from().day_number() == anchor
    &&& weekly.repeat_every_n_weeks() == 2
}

/// The appliance's jobs, in the order in which they fire: the pills every day
/// at six, their reminder every day at eleven, the plants on Wednesdays and
/// Saturdays at six, and the fourth-named chore every second Wednesday at six,
/// counted from March 13, 2024. `None` only where the calendar lacks that date.
pub fn job_specs() -> (specs: Option<Vec<ScheduledJobSpec>>)
    ensures
        specs is Some <==> Date::civil(2024, 3, 13) is Some,
        specs matches Some(jobs) ==> {
            &&& jobs@.len() == 4
            &&& is_daily(jobs@[0], Activity::TakePills, 6, every_weekday())
            &&& is_daily(jobs@[1], Activity::TakePillsReminder, 11, every_weekday())
            &&& is_daily(jobs@[2], Activity::WaterPlants, 6, seq![Weekday::Sat, Weekday::Wed])
            &&& is_fortnightly(jobs@[3], Activity::I, 6, Date::civil(2024, 3, 13)->0)
        },
{
    let start = match Date::from_ymd_opt(2024, 3, 13) {
        Some(date) => date,
        None => {
            return None;
        },
    };
    let (six, eleven) = match (TimeOfDay::from_hms_opt(6, 0, 0), TimeOfDay::from_hms_opt(11, 0, 0)) {
        (Some(six), Some(eleven)) => (six, eleven),
        _ => {
            return None;
        },
    };
    let mut plant_days: Vec<Weekday> = Vec::new();
    plant_days.push(Weekday::Sat);
    plant_days.push(Weekday::Wed);
    assert(plant_days@ =~= seq![Weekday::Sat, Weekday::Wed]);
    let mut specs: Vec<ScheduledJobSpec> = Vec::new();
    specs.push(
        ScheduledJobSpec::new(
            Schedule::Daily(DailySchedule::new(six, every_day())),
            Activity::TakePills,
            Duration::hours(1),
        ),
    );
    specs.push(
        ScheduledJobSpec::new(
            Schedule::Daily(DailySchedule::new(eleven, every_day())),
            Activity::TakePillsReminder,
            Duration::hours(1),
        ),
    );
    specs.push(
        ScheduledJobSpec::new(
            Schedule::Daily(DailySchedule::new(six, plant_days)),
            Activity::WaterPlants,
            Duration::hours(1),
        ),
    );
    specs.push(
        ScheduledJobSpec::new(
            Schedule::Weekly(WeeklySchedule::new(start, six, 2)),
            Activity::I,
            Duration::hours(12),
        ),
    );
    Some(specs)
}

} // verus!
