//! Recurring schedules and the instant at which each next comes due.

use crate::calendar::{Date, DateTime, TimeOfDay, Weekday, WeekdaySet, DATE_MAX_DAYS};
use vstd::prelude::*;

verus! {

/// The first day of the week, counted in days from Monday, that is in the set and
/// not before `from`; `None` if the rest of the week holds no such day.
pub open spec fn earliest_from(days: WeekdaySet, from: int) -> Option<int>
    decreases 7 - from,
{
    if from >= 7 {
        None
    } else if days.contains(Weekday::at(from)) {
        Some(from)
    } else {
        earliest_from(days, from + 1)
    }
}

/// What `earliest_from` finds is in the set, and nothing between `from` and it is.
pub proof fn lemma_earliest_from(days: WeekdaySet, from: int)
    requires
        0 <= from <= 7,
    ensures
        match earliest_from(days, from) {
            Some(d) => from <= d < 7 && days.contains(Weekday::at(d)) && forall|j: int|
                from <= j < d ==> !days.contains(#[trigger] Weekday::at(j)),
            None => forall|j: int| from <= j < 7 ==> !days.contains(#[trigger] Weekday::at(j)),
        },
    decreases 7 - from,
{
    if from < 7 && !days.contains(Weekday::at(from)) {
        lemma_earliest_from(days, from + 1);
    }
}

/// A set with a day in it has a first day of the week.
pub proof fn lemma_nonempty_has_earliest(days: WeekdaySet)
    requires
        !days.is_empty(),
    ensures
        earliest_from(days, 0) is Some,
{
    let day = choose|day: Weekday| days.contains(day);
    assert(Weekday::at(day.index()) == day);
    lemma_earliest_from(days, 0);
}

fn earliest_day_from(days: &WeekdaySet, from: u32) -> (found: Option<u32>)
    requires
        from <= 7,
    ensures
        found is Some <==> earliest_from(*days, from as int) is Some,
        found matches Some(d) ==> earliest_from(*days, from as int) == Some(d as int) && d < 7,
{
    let mut d: u32 = from;
    while d < 7
        invariant
            from <= d <= 7,
            earliest_from(*days, from as int) == earliest_from(*days, d as int),
        decreases 7 - d,
    {
        match Weekday::from_days_from_monday(d) {
            Some(day) => {
                if days.has(day) {
                    return Some(d);
                }
            },
            None => {},
        }
        d = d + 1;
    }
    None
}

/// A schedule that comes due at one time of day on each of a set of weekdays.
#[derive(Clone, Copy, Debug, PartialEq, Eq, Structural)]
pub struct DailySchedule {
    time: TimeOfDay,
    days: WeekdaySet,
}

impl DailySchedule {
    /// A daily schedule names at least one weekday.
    #[verifier::type_invariant]
    pub closed spec fn wf(self) -> bool {
        self.time.wf() && !self.days.is_empty()
    }

    pub closed spec fn spec_time(&self) -> TimeOfDay {
        self.time
    }

    pub closed spec fn spec_days(&self) -> WeekdaySet {
        self.days
    }

    /// The time of day at which the schedule comes due.
    #[verifier::when_used_as_spec(spec_time)]
    pub fn time(&self) -> (time: TimeOfDay)
        ensures
            time == self.time(),
    {
        self.time
    }

    /// The weekdays on which the schedule comes due.
    #[verifier::when_used_as_spec(spec_days)]
    pub fn days(&self) -> (days: WeekdaySet)
        ensures
            days == self.days(),
    {
        self.days
    }

    /// How many days after today the schedule next comes due. `time_ahead` says
    /// whether the schedule's time of day is still to come today. The day is the
    /// earliest configured weekday that is today, if the time is still ahead, or
    /// later in the week; where the week holds none, it is the first configured
    /// weekday of the week that follows.
    pub open spec fn days_to_advance(self, today: Weekday, time_ahead: bool) -> int {
        let first = if time_ahead {
            today.index()
        } else {
            today.index() + 1
        };
        match earliest_from(self.days(), first) {
            Some(d) => d - today.index(),
            None => match earliest_from(self.days(), 0) {
                Some(d) => d - today.index() + 7,
                None => 0,
            },
        }
    }

    /// The day number of the date on which the schedule next comes due.
    pub open spec fn next_trigger_day(self, now: DateTime) -> int {
        now.date().day_number() + self.days_to_advance(
            now.date().weekday(),
            now.time().nanos_since_midnight() < self.time().nanos_since_midnight(),
        )
    }

    /// Whether the next trigger after `now` is still a date of the calendar.
    pub open spec fn supports(self, now: DateTime) -> bool {
        self.next_trigger_day(now) <= DATE_MAX_DAYS
    }

    /// The next instant, not before `now`, at which the schedule comes due.
    pub open spec fn next_trigger(self, now: DateTime) -> DateTime {
        DateTime::of(Date::at_day(self.next_trigger_day(now)), self.time())
    }

    /// The number of days to advance lies within a week, is not zero once today's
    /// time has passed, lands on a configured weekday, and passes over none.
    pub proof fn lemma_days_to_advance(self, today: Weekday, time_ahead: bool)
        requires
            self.wf(),
        ensures
            ({
                let k = self.days_to_advance(today, time_ahead);
                let least: int = if time_ahead {
                    0
                } else {
                    1
                };
                &&& least <= k <= least + 6
                &&& self.days().contains(Weekday::at((today.index() + k) % 7))
                &&& forall|j: int|
                    least <= j < k ==> !self.days().contains(
                        #[trigger] Weekday::at((today.index() + j) % 7),
                    )
            }),
    {
        let t = today.index();
        let first: int = if time_ahead {
            t
        } else {
            t + 1
        };
        let least: int = if time_ahead {
            0
        } else {
            1
        };
        let k = self.days_to_advance(today, time_ahead);
        lemma_earliest_from(self.days, first);
        lemma_earliest_from(self.days, 0);
        lemma_nonempty_has_earliest(self.days);
        match earliest_from(self.days, first) {
            Some(d) => {
                assert forall|j: int| least <= j < k implies !self.days.contains(
                    #[trigger] Weekday::at((t + j) % 7),
                ) by {
                    assert(!self.days.contains(Weekday::at(t + j)));
                }
            },
            None => {
                let d = earliest_from(self.days, 0)->0;
                assert(d < first) by {
                    if d >= first {
                        assert(!self.days.contains(Weekday::at(d)));
                    }
                }
                assert((t + k) % 7 == d);
                assert forall|j: int| least <= j < k implies !self.days.contains(
                    #[trigger] Weekday::at((t + j) % 7),
                ) by {
                    if t + j < 7 {
                        assert(!self.days.contains(Weekday::at(t + j)));
                    } else {
                        assert((t + j) % 7 == t + j - 7);
                        assert(!self.days.contains(Weekday::at(t + j - 7)));
                    }
                }
            },
        }
    }

    /// A daily schedule at `schedule_time` on the days that `schedule_days` names.
    pub fn new(schedule_time: TimeOfDay, schedule_days: Vec<Weekday>) -> (schedule: DailySchedule)
        requires
            schedule_days@.len() > 0,
        ensures
            schedule.wf(),
            schedule.time() == schedule_time,
            forall|d: Weekday| schedule.days().contains(d) == schedule_days@.contains(d),
    {
        let days = WeekdaySet::from_days(&schedule_days);
        proof {
            use_type_invariant(schedule_time);
            assert(days.contains(schedule_days@[0]));
        }
        DailySchedule { time: schedule_time, days }
    }

    /// The number of days from a date that falls on `today` to the date on which
    /// the schedule next comes due.
    pub fn advance_from(&self, today: Weekday, time_ahead: bool) -> (days: u32)
        ensures
            days == self.days_to_advance(today, time_ahead),
            days <= 7,
    {
        proof {
            use_type_invariant(self);
            self.lemma_days_to_advance(today, time_ahead);
        }
        let t: u32 = today.num_days_from_monday();
        let first: u32 = if time_ahead {
            t
        } else {
            t + 1
        };
        match earliest_day_from(&self.days, first) {
            Some(d) => d - t,
            None => match earliest_day_from(&self.days, 0) {
                Some(d) => d + 7 - t,
                None => 0,
            },
        }
    }

    /// The next instant, not before `now`, at which the schedule comes due.
    pub fn calculate_next_trigger(&self, now: DateTime) -> (next: DateTime)
        requires
            self.supports(now),
        ensures
            next == self.next_trigger(now),
            next.wf(),
    {
        let time_ahead = now.time().is_before(&self.time);
        let days = self.advance_from(now.weekday(), time_ahead);
        match now.date().checked_add_days(days as u64) {
            Some(date) => {
                proof {
                    date.lemma_wf_range();
                    Date::lemma_at_day(self.next_trigger_day(now));
                    Date::lemma_day_number_injective(
                        date,
                        Date::at_day(self.next_trigger_day(now)),
                    );
                }
                DateTime::new(date, self.time)
            },
            None => now,
        }
    }

    /// Whether `calculate_next_trigger` can be asked for the trigger after `now`.
    pub fn is_supported(&self, now: DateTime) -> (supported: bool)
        ensures
            supported == self.supports(now),
    {
        let time_ahead = now.time().is_before(&self.time);
        let days = self.advance_from(now.weekday(), time_ahead);
        now.date().checked_add_days(days as u64).is_some()
    }

    /// The next trigger after `now`, or `None` where it lies past the end of the
    /// calendar.
    pub fn checked_next_trigger(&self, now: DateTime) -> (next: Option<DateTime>)
        ensures
            next == if self.supports(now) {
                Some(self.next_trigger(now))
            } else {
                None
            },
    {
        if self.is_supported(now) {
            Some(self.calculate_next_trigger(now))
        } else {
            None
        }
    }

    /// The next trigger of a daily schedule is a valid date-time strictly after
    /// `now`, at the schedule's time of day.
    pub proof fn lemma_next_trigger_is_later(self, now: DateTime)
        requires
            self.wf(),
            now.wf(),
            self.supports(now),
        ensures
            self.next_trigger(now).wf(),
            self.next_trigger(now).time() == self.time(),
            self.next_trigger(now).date().day_number() == self.next_trigger_day(now),
            self.next_trigger(now).timeline_nanos() > now.timeline_nanos(),
    {
        let day = self.next_trigger_day(now);
        let time_ahead = now.time().nanos_since_midnight() < self.time().nanos_since_midnight();
        self.lemma_days_to_advance(now.date().weekday(), time_ahead);
        now.lemma_wf_parts();
        now.date().lemma_wf_range();
        Date::lemma_at_day(day);
        DateTime::lemma_of(Date::at_day(day), self.time);
        DateTime::lemma_timeline_order(now, self.next_trigger(now));
        Date::lemma_day_number_injective(now.date(), Date::at_day(day));
    }
}

/// A schedule that comes due at one time of day every so many weeks, counted
/// from an anchor date.
#[derive(Clone, Copy, Debug, PartialEq, Eq, Structural)]
pub struct WeeklySchedule {
    start_from: Date,
    repeat_every_n_weeks: u64,
    time: TimeOfDay,
}

impl WeeklySchedule {
    /// A weekly schedule repeats after at least one week, and its period in days
    /// fits 64 bits.
    #[verifier::type_invariant]
    pub closed spec fn wf(self) -> bool {
        &&& self.start_from.wf()
        &&& self.time.wf()
        &&& 1 <= self.repeat_every_n_weeks
        &&& 7 * self.repeat_every_n_weeks <= u64::MAX
    }

    pub closed spec fn spec_start_from(&self) -> Date {
        self.start_from
    }

    pub closed spec fn spec_repeat_every_n_weeks(&self) -> u64 {
        self.repeat_every_n_weeks
    }

    pub closed spec fn spec_time(&self) -> TimeOfDay {
        self.time
    }

    /// The anchor date: the schedule comes due on it and every period after it.
    #[verifier::when_used_as_spec(spec_start_from)]
    pub fn start_from(&self) -> (start_from: Date)
        ensures
            start_from == self.start_from(),
    {
        self.start_from
    }

    /// The number of weeks from one trigger to the next.
    #[verifier::when_used_as_spec(spec_repeat_every_n_weeks)]
    pub fn repeat_every_n_weeks(&self) -> (weeks: u64)
        ensures
            weeks == self.repeat_every_n_weeks(),
    {
        self.repeat_every_n_weeks
    }

    /// The time of day at which the schedule comes due.
    #[verifier::when_used_as_spec(spec_time)]
    pub fn time(&self) -> (time: TimeOfDay)
        ensures
            time == self.time(),
    {
        self.time
    }

    /// The number of days from one trigger to the next.
    pub open spec fn period_days(self) -> int {
        7 * self.repeat_every_n_weeks()
    }

    /// How many days after today the schedule next comes due, `days_since_start`
    /// days after the anchor date. `time_passed` says whether today's time of day
    /// is already past the schedule's. On a day that is a whole number of periods
    /// from the anchor, with the time not yet past, it is today; else the days
    /// that are left of the running period.
    pub open spec fn days_to_advance(self, days_since_start: int, time_passed: bool) -> int {
        let remainder = days_since_start % self.period_days();
        if remainder == 0 && !time_passed {
            0
        } else {
            self.period_days() - remainder
        }
    }

    /// The day number of the date on which the schedule next comes due.
    pub open spec fn next_trigger_day(self, now: DateTime) -> int {
        now.date().day_number() + self.days_to_advance(
            now.date().day_number() - self.start_from().day_number(),
            self.time().nanos_since_midnight() < now.time().nanos_since_midnight(),
        )
    }

    /// Whether `now` is not before the anchor date and the next trigger after it
    /// is still a date of the calendar.
    pub open spec fn supports(self, now: DateTime) -> bool {
        &&& self.start_from().day_number() <= now.date().day_number()
        &&& self.next_trigger_day(now) <= DATE_MAX_DAYS
    }

    /// The next instant, not before `now`, at which the schedule comes due.
    pub open spec fn next_trigger(self, now: DateTime) -> DateTime {
        DateTime::of(Date::at_day(self.next_trigger_day(now)), self.time())
    }

    /// A schedule that comes due at `schedule_time` on `schedule_start_from` and
    /// every `schedule_repeat_every_n_weeks` weeks after it.
    pub fn new(
        schedule_start_from: Date,
        schedule_time: TimeOfDay,
        schedule_repeat_every_n_weeks: u64,
    ) -> (schedule: WeeklySchedule)
        requires
            1 <= schedule_repeat_every_n_weeks,
            7 * schedule_repeat_every_n_weeks <= u64::MAX,
        ensures
            schedule.wf(),
            schedule.start_from() == schedule_start_from,
            schedule.time() == schedule_time,
            schedule.repeat_every_n_weeks() == schedule_repeat_every_n_weeks,
    {
        proof {
            use_type_invariant(schedule_start_from);
            use_type_invariant(schedule_time);
        }
        WeeklySchedule {
            start_from: schedule_start_from,
            repeat_every_n_weeks: schedule_repeat_every_n_weeks,
            time: schedule_time,
        }
    }

    /// The number of days from a date `days_since_start` days after the anchor to
    /// the date on which the schedule next comes due.
    pub fn advance_from(&self, days_since_start: u64, time_passed: bool) -> (days: u64)
        ensures
            days == self.days_to_advance(days_since_start as int, time_passed),
            days <= self.period_days(),
            time_passed ==> days >= 1,
    {
        proof {
            use_type_invariant(self);
        }
        let schedule_period_in_days: u64 = 7 * self.repeat_every_n_weeks;
        let remainder: u64 = days_since_start % schedule_period_in_days;
        if remainder == 0 && !time_passed {
            0
        } else {
            schedule_period_in_days - remainder
        }
    }

    /// Whether `calculate_next_trigger` can be asked for the trigger after `now`.
    pub fn is_supported(&self, now: DateTime) -> (supported: bool)
        ensures
            supported == self.supports(now),
    {
        let days_since_start: i64 = now.date().days_since(&self.start_from);
        if days_since_start < 0 {
            return false;
        }
        let time_passed = self.time.is_before(&now.time());
        let days = self.advance_from(days_since_start as u64, time_passed);
        now.date().checked_add_days(days).is_some()
    }

    /// The next instant, not before `now`, at which the schedule comes due.
    pub fn calculate_next_trigger(&self, now: DateTime) -> (next: DateTime)
        requires
            self.supports(now),
        ensures
            next == self.next_trigger(now),
            next.wf(),
    {
        let days_since_start: i64 = now.date().days_since(&self.start_from);
        let time_passed = self.time.is_before(&now.time());
        let days = self.advance_from(days_since_start as u64, time_passed);
        match now.date().checked_add_days(days) {
            Some(date) => {
                proof {
                    date.lemma_wf_range();
                    Date::lemma_at_day(self.next_trigger_day(now));
                    Date::lemma_day_number_injective(
                        date,
                        Date::at_day(self.next_trigger_day(now)),
                    );
                }
                DateTime::new(date, self.time)
            },
            None => now,
        }
    }

    /// The next trigger after `now`, or `None` where `now` is before the anchor
    /// date or the trigger lies past the end of the calendar.
    pub fn checked_next_trigger(&self, now: DateTime) -> (next: Option<DateTime>)
        ensures
            next == if self.supports(now) {
                Some(self.next_trigger(now))
            } else {
                None
            },
    {
        if self.is_supported(now) {
            Some(self.calculate_next_trigger(now))
        } else {
            None
        }
    }

    /// Whether `now` is itself a trigger of the schedule: a whole number of
    /// periods after the anchor date, at the schedule's time of day.
    pub open spec fn is_trigger(self, now: DateTime) -> bool {
        &&& (now.date().day_number() - self.start_from().day_number()) % self.period_days() == 0
        &&& now.time() == self.time()
    }

    /// The next trigger of a weekly schedule is a valid date-time not before
    /// `now`, at the schedule's time of day, a whole number of periods after the
    /// anchor date; it is `now` itself only where `now` is a trigger.
    pub proof fn lemma_next_trigger_not_earlier(self, now: DateTime)
        requires
            self.wf(),
            now.wf(),
            self.supports(now),
        ensures
            self.next_trigger(now).wf(),
            self.next_trigger(now).time() == self.time(),
            self.next_trigger(now).date().day_number() == self.next_trigger_day(now),
            (self.next_trigger_day(now) - self.start_from().day_number()) % self.period_days()
                == 0,
            self.next_trigger(now).timeline_nanos() >= now.timeline_nanos(),
            self.next_trigger(now) == now <==> self.is_trigger(now),
    {
        let day = self.next_trigger_day(now);
        let since = now.date().day_number() - self.start_from().day_number();
        let period = self.period_days();
        let remainder = since % period;
        now.lemma_wf_parts();
        now.date().lemma_wf_range();
        assert(0 <= remainder < period);
        Date::lemma_at_day(day);
        DateTime::lemma_of(Date::at_day(day), self.time);
        DateTime::lemma_timeline_order(now, self.next_trigger(now));
        Date::lemma_day_number_injective(now.date(), Date::at_day(day));
        TimeOfDay::lemma_nanos_injective(now.time(), self.time);
        DateTime::lemma_parts_injective(now, self.next_trigger(now));
        assert((day - self.start_from().day_number()) % period == 0) by {
            if day != now.date().day_number() {
                assert(day - self.start_from().day_number() == since + (period - since % period));
                assert((since + (period - since % period)) % period == 0) by (nonlinear_arith)
                    requires
                        period > 0,
                ;
            }
        }
    }
}

impl WeeklySchedule {
    /// No trigger is passed over: of the days from today to the day before the
    /// next trigger, none is a whole number of periods after the anchor date,
    /// but today itself where the time of day has passed already.
    pub proof fn lemma_next_trigger_is_first(self, now: DateTime, day: int)
        requires
            self.wf(),
            now.wf(),
            self.supports(now),
            now.date().day_number() <= day < self.next_trigger_day(now),
            (day - self.start_from().day_number()) % self.period_days() == 0,
        ensures
            day == now.date().day_number(),
            self.time().nanos_since_midnight() < now.time().nanos_since_midnight(),
    {
        let since = now.date().day_number() - self.start_from().day_number();
        let period = self.period_days();
        let ahead = day - now.date().day_number();
        assert(0 <= since % period < period);
        assert((since + ahead) % period == since % period + ahead) by (nonlinear_arith)
            requires
                period > 0,
                since >= 0,
                0 <= ahead,
                since % period + ahead < period,
        ;
    }
}

/// When a job comes due.
#[derive(Clone, Copy, Debug, PartialEq, Eq, Structural)]
pub enum Schedule {
    Daily(DailySchedule),
    Weekly(WeeklySchedule),
}

impl Schedule {
    pub open spec fn wf(self) -> bool {
        match self {
            Schedule::Daily(schedule) => schedule.wf(),
            Schedule::Weekly(schedule) => schedule.wf(),
        }
    }

    /// Whether `calculate_next_trigger` can be asked for the trigger after `now`.
    pub open spec fn supports(self, now: DateTime) -> bool {
        match self {
            Schedule::Daily(schedule) => schedule.supports(now),
            Schedule::Weekly(schedule) => schedule.supports(now),
        }
    }

    /// The next instant, not before `now`, at which the schedule comes due.
    pub open spec fn next_trigger(self, now: DateTime) -> DateTime {
        match self {
            Schedule::Daily(schedule) => schedule.next_trigger(now),
            Schedule::Weekly(schedule) => schedule.next_trigger(now),
        }
    }

    /// Whether the schedule's next trigger after `now` is `now` itself. Only a
    /// weekly schedule has such instants: its own triggers.
    pub open spec fn is_trigger(self, now: DateTime) -> bool {
        match self {
            Schedule::Daily(_) => false,
            Schedule::Weekly(schedule) => schedule.is_trigger(now),
        }
    }

    /// The next trigger of a schedule is a valid date-time not before `now`, and
    /// strictly after it unless `now` is itself a trigger of a weekly schedule.
    pub proof fn lemma_next_trigger_not_earlier(self, now: DateTime)
        requires
            self.wf(),
            now.wf(),
            self.supports(now),
        ensures
            self.next_trigger(now).wf(),
            self.next_trigger(now).timeline_nanos() >= now.timeline_nanos(),
            self.next_trigger(now) == now <==> self.is_trigger(now),
    {
        match self {
            Schedule::Daily(schedule) => {
                schedule.lemma_next_trigger_is_later(now);
            },
            Schedule::Weekly(schedule) => {
                schedule.lemma_next_trigger_not_earlier(now);
            },
        }
    }

    /// The next instant, not before `now`, at which the schedule comes due.
    pub fn calculate_next_trigger(&self, now: DateTime) -> (next: DateTime)
        requires
            self.supports(now),
        ensures
            next == self.next_trigger(now),
            next.wf(),
    {
        match self {
            Schedule::Daily(schedule) => schedule.calculate_next_trigger(now),
            Schedule::Weekly(schedule) => schedule.calculate_next_trigger(now),
        }
    }

    /// Whether `calculate_next_trigger` can be asked for the trigger after `now`.
    pub fn is_supported(&self, now: DateTime) -> (supported: bool)
        ensures
            supported == self.supports(now),
    {
        match self {
            Schedule::Daily(schedule) => schedule.is_supported(now),
            Schedule::Weekly(schedule) => schedule.is_supported(now),
        }
    }

    /// The next trigger after `now`, or `None` where the schedule does not
    /// support `now`.
    pub fn checked_next_trigger(&self, now: DateTime) -> (next: Option<DateTime>)
        ensures
            next == if self.supports(now) {
                Some(self.next_trigger(now))
            } else {
                None
            },
    {
        match self {
            Schedule::Daily(schedule) => schedule.checked_next_trigger(now),
            Schedule::Weekly(schedule) => schedule.checked_next_trigger(now),
        }
    }
}

/// The seven days of the week, Monday first.
pub open spec fn every_weekday() -> Seq<Weekday> {
    seq![
        Weekday::Mon,
        Weekday::Tue,
        Weekday::Wed,
        Weekday::Thu,
        Weekday::Fri,
        Weekday::Sat,
        Weekday::Sun,
    ]
}

/// All seven days of the week, Monday first.
pub fn every_day() -> (days: Vec<Weekday>)
    ensures
        days@ == every_weekday(),
{
    let mut days: Vec<Weekday> = Vec::new();
    days.push(Weekday::Mon);
    days.push(Weekday::Tue);
    days.push(Weekday::Wed);
    days.push(Weekday::Thu);
    days.push(Weekday::Fri);
    days.push(Weekday::Sat);
    days.push(Weekday::Sun);
    assert(days@ =~= every_weekday());
    days
}

/// The number of days from Monday to `weekday`, as a signed number for signed
/// arithmetic.
pub fn days_from_monday(weekday: Weekday) -> (days: i32)
    ensures
        days == weekday.index(),
{
    weekday.num_days_from_monday() as i32
}

} // verus!
