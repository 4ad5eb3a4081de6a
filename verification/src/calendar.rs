//! Calendar values as plain numbers: a date is a day number, a time of day a
//! count of nanoseconds since midnight. The calendar itself (which day of the
//! week a day number falls on, which day number a civil date has) is chrono's.

use vstd::prelude::*;

verus! {

/// Seconds in a day.
pub const SECS_PER_DAY: u32 = 86_400;

/// Nanoseconds in a second.
pub const NANOS_PER_SEC: u32 = 1_000_000_000;

/// Nanoseconds in a day.
pub const NANOS_PER_DAY: u64 = 86_400_000_000_000;

/// Day number of the earliest date chrono represents, January 1 of year -262143.
pub const DATE_MIN_DAYS: i32 = -95_746_129;

/// Day number of the latest date chrono represents, December 31 of year 262142.
pub const DATE_MAX_DAYS: i32 = 95_745_399;

/// A day of the week.
#[derive(Clone, Copy, Debug, PartialEq, Eq, Structural)]
pub enum Weekday {
    Mon,
    Tue,
    Wed,
    Thu,
    Fri,
    Sat,
    Sun,
}

impl Weekday {
    /// The number of days from Monday to this day, 0 for Monday to 6 for Sunday.
    pub open spec fn index(self) -> int {
        match self {
            Weekday::Mon => 0,
            Weekday::Tue => 1,
            Weekday::Wed => 2,
            Weekday::Thu => 3,
            Weekday::Fri => 4,
            Weekday::Sat => 5,
            Weekday::Sun => 6,
        }
    }

    /// The weekday that lies `n` days after a Monday, for `n` below 7.
    pub open spec fn at(n: int) -> Weekday {
        if n == 0 {
            Weekday::Mon
        } else if n == 1 {
            Weekday::Tue
        } else if n == 2 {
            Weekday::Wed
        } else if n == 3 {
            Weekday::Thu
        } else if n == 4 {
            Weekday::Fri
        } else if n == 5 {
            Weekday::Sat
        } else {
            Weekday::Sun
        }
    }

    pub fn num_days_from_monday(self) -> (n: u32)
        ensures
            n == self.index(),
            n < 7,
    {
        match self {
            Weekday::Mon => 0,
            Weekday::Tue => 1,
            Weekday::Wed => 2,
            Weekday::Thu => 3,
            Weekday::Fri => 4,
            Weekday::Sat => 5,
            Weekday::Sun => 6,
        }
    }

    /// The weekday `n` days after a Monday; `None` for 7 and above.
    pub fn from_days_from_monday(n: u32) -> (day: Option<Weekday>)
        ensures
            n < 7 ==> day == Some(Weekday::at(n as int)),
            n >= 7 ==> day is None,
            day matches Some(d) ==> d.index() == n,
    {
        if n == 0 {
            Some(Weekday::Mon)
        } else if n == 1 {
            Some(Weekday::Tue)
        } else if n == 2 {
            Some(Weekday::Wed)
        } else if n == 3 {
            Some(Weekday::Thu)
        } else if n == 4 {
            Some(Weekday::Fri)
        } else if n == 5 {
            Some(Weekday::Sat)
        } else if n == 6 {
            Some(Weekday::Sun)
        } else {
            None
        }
    }
}

/// A set of days of the week.
#[derive(Clone, Copy, Debug, PartialEq, Eq, Structural)]
pub struct WeekdaySet {
    mon: bool,
    tue: bool,
    wed: bool,
    thu: bool,
    fri: bool,
    sat: bool,
    sun: bool,
}

impl View for WeekdaySet {
    type V = Set<Weekday>;

    /// The days of the set.
    closed spec fn view(&self) -> Set<Weekday> {
        Set::new(
            |day: Weekday|
                match day {
                    Weekday::Mon => self.mon,
                    Weekday::Tue => self.tue,
                    Weekday::Wed => self.wed,
                    Weekday::Thu => self.thu,
                    Weekday::Fri => self.fri,
                    Weekday::Sat => self.sat,
                    Weekday::Sun => self.sun,
                },
        )
    }
}

impl WeekdaySet {
    /// Whether the day is in the set.
    pub open spec fn contains(self, day: Weekday) -> bool {
        self@.contains(day)
    }

    /// Whether no day is in the set.
    pub open spec fn is_empty(self) -> bool {
        forall|day: Weekday| !self.contains(day)
    }

    pub fn empty() -> (set: WeekdaySet)
        ensures
            set.is_empty(),
    {
        WeekdaySet {
            mon: false,
            tue: false,
            wed: false,
            thu: false,
            fri: false,
            sat: false,
            sun: false,
        }
    }

    /// Puts a day into the set.
    pub fn insert(&mut self, day: Weekday)
        ensures
            forall|d: Weekday| final(self).contains(d) == (d == day || old(self).contains(d)),
    {
        match day {
            Weekday::Mon => self.mon = true,
            Weekday::Tue => self.tue = true,
            Weekday::Wed => self.wed = true,
            Weekday::Thu => self.thu = true,
            Weekday::Fri => self.fri = true,
            Weekday::Sat => self.sat = true,
            Weekday::Sun => self.sun = true,
        }
    }

    pub fn has(&self, day: Weekday) -> (found: bool)
        ensures
            found == self.contains(day),
    {
        match day {
            Weekday::Mon => self.mon,
            Weekday::Tue => self.tue,
            Weekday::Wed => self.wed,
            Weekday::Thu => self.thu,
            Weekday::Fri => self.fri,
            Weekday::Sat => self.sat,
            Weekday::Sun => self.sun,
        }
    }

    /// The set of the days that a list names.
    pub fn from_days(days: &Vec<Weekday>) -> (set: WeekdaySet)
        ensures
            forall|d: Weekday| set.contains(d) == days@.contains(d),
    {
        let mut set = WeekdaySet::empty();
        let mut i: usize = 0;
        while i < days.len()
            invariant
                i <= days.len(),
                forall|d: Weekday| set.contains(d) == days@.take(i as int).contains(d),
            decreases days.len() - i,
        {
            set.insert(days[i]);
            proof {
                let prefix = days@.take(i as int);
                let next = days@.take(i + 1);
                assert(next =~= prefix.push(days@[i as int]));
                assert forall|d: Weekday| set.contains(d) == next.contains(d) by {
                    if prefix.contains(d) {
                        let j = choose|j: int| 0 <= j < prefix.len() && prefix[j] == d;
                        assert(next[j] == d);
                    }
                    if d == days@[i as int] {
                        assert(next[i as int] == d);
                    }
                }
            }
            i = i + 1;
        }
        proof {
            assert(days@.take(days.len() as int) =~= days@);
        }
        set
    }
}

/// A time of day, to the nanosecond. Leap seconds have no representation.
#[derive(Clone, Copy, Debug, PartialEq, Eq, Structural)]
pub struct TimeOfDay {
    secs: u32,
    nanos: u32,
}

impl TimeOfDay {
    /// The seconds are within a day, the nanoseconds within a second.
    #[verifier::type_invariant]
    pub closed spec fn wf(self) -> bool {
        self.secs < SECS_PER_DAY && self.nanos < NANOS_PER_SEC
    }

    /// Nanoseconds since midnight.
    pub closed spec fn nanos_since_midnight(self) -> int {
        self.secs * NANOS_PER_SEC + self.nanos
    }

    pub fn from_hms_nano_opt(hour: u32, min: u32, sec: u32, nano: u32) -> (time: Option<TimeOfDay>)
        ensures
            time is Some <==> hour < 24 && min < 60 && sec < 60 && nano < NANOS_PER_SEC,
            time matches Some(t) ==> t.wf() && t.nanos_since_midnight() == (hour * 3600 + min * 60
                + sec) * NANOS_PER_SEC + nano,
    {
        if hour < 24 && min < 60 && sec < 60 && nano < NANOS_PER_SEC {
            Some(TimeOfDay { secs: hour * 3600 + min * 60 + sec, nanos: nano })
        } else {
            None
        }
    }

    /// The time of day `secs` seconds and `nanos` nanoseconds after midnight.
    pub closed spec fn at(secs: u32, nanos: u32) -> TimeOfDay {
        TimeOfDay { secs, nanos }
    }

    /// What the time of day at a count of seconds and nanoseconds is.
    pub proof fn lemma_at(secs: u32, nanos: u32)
        requires
            secs < SECS_PER_DAY,
            nanos < NANOS_PER_SEC,
        ensures
            TimeOfDay::at(secs, nanos).wf(),
            TimeOfDay::at(secs, nanos).nanos_since_midnight() == secs * NANOS_PER_SEC + nanos,
    {
    }

    /// Two times of day at one count of nanoseconds are one time.
    pub proof fn lemma_nanos_injective(a: TimeOfDay, b: TimeOfDay)
        requires
            a.wf(),
            b.wf(),
        ensures
            a.nanos_since_midnight() == b.nanos_since_midnight() <==> a == b,
    {
        assert(a.secs * NANOS_PER_SEC + a.nanos == b.secs * NANOS_PER_SEC + b.nanos ==> a.secs
            == b.secs) by (nonlinear_arith)
            requires
                a.nanos < NANOS_PER_SEC,
                b.nanos < NANOS_PER_SEC,
        ;
    }

    /// Every time of day lies within one day.
    pub proof fn lemma_nanos_range(self)
        requires
            self.wf(),
        ensures
            0 <= self.nanos_since_midnight() < SECS_PER_DAY * NANOS_PER_SEC,
    {
        assert(self.secs * NANOS_PER_SEC + self.nanos < SECS_PER_DAY * NANOS_PER_SEC)
            by (nonlinear_arith)
            requires
                self.secs < SECS_PER_DAY,
                self.nanos < NANOS_PER_SEC,
        ;
    }

    pub fn from_hms_opt(hour: u32, min: u32, sec: u32) -> (time: Option<TimeOfDay>)
        ensures
            time is Some <==> hour < 24 && min < 60 && sec < 60,
            time matches Some(t) ==> t.wf() && t.nanos_since_midnight() == (hour * 3600 + min * 60
                + sec) * NANOS_PER_SEC,
    {
        TimeOfDay::from_hms_nano_opt(hour, min, sec, 0)
    }

    /// The time of day `secs` seconds and `nanos` nanoseconds after midnight;
    /// `None` unless the seconds are within a day and the nanoseconds within a
    /// second.
    pub fn from_num_seconds_from_midnight_opt(secs: u32, nanos: u32) -> (time: Option<TimeOfDay>)
        ensures
            time is Some <==> secs < SECS_PER_DAY && nanos < NANOS_PER_SEC,
            time matches Some(t) ==> t.wf() && t.nanos_since_midnight() == secs * NANOS_PER_SEC
                + nanos,
    {
        if secs < SECS_PER_DAY && nanos < NANOS_PER_SEC {
            Some(TimeOfDay { secs, nanos })
        } else {
            None
        }
    }

    pub fn num_seconds_from_midnight(&self) -> (secs: u32)
        ensures
            secs == self.nanos_since_midnight() / (NANOS_PER_SEC as int),
            secs < SECS_PER_DAY,
    {
        proof {
            use_type_invariant(self);
            assert((self.secs * NANOS_PER_SEC + self.nanos) / (NANOS_PER_SEC as int) == self.secs)
                by (nonlinear_arith)
                requires
                    self.nanos < NANOS_PER_SEC,
            ;
        }
        self.secs
    }

    pub fn nanosecond(&self) -> (nanos: u32)
        ensures
            nanos == self.nanos_since_midnight() % (NANOS_PER_SEC as int),
            nanos < NANOS_PER_SEC,
    {
        proof {
            use_type_invariant(self);
            assert((self.secs * NANOS_PER_SEC + self.nanos) % (NANOS_PER_SEC as int) == self.nanos)
                by (nonlinear_arith)
                requires
                    self.nanos < NANOS_PER_SEC,
            ;
        }
        self.nanos
    }

    /// Whether this time of day comes strictly before `other`.
    pub fn is_before(&self, other: &TimeOfDay) -> (before: bool)
        ensures
            before == (self.nanos_since_midnight() < other.nanos_since_midnight()),
    {
        proof {
            use_type_invariant(self);
            use_type_invariant(other);
            TimeOfDay::lemma_order(*self, *other);
        }
        self.secs < other.secs || (self.secs == other.secs && self.nanos < other.nanos)
    }

    proof fn lemma_order(a: TimeOfDay, b: TimeOfDay)
        requires
            a.wf(),
            b.wf(),
        ensures
            a.nanos_since_midnight() < b.nanos_since_midnight() <==> (a.secs < b.secs || (a.secs
                == b.secs && a.nanos < b.nanos)),
    {
        assert(a.secs < b.secs ==> a.secs * NANOS_PER_SEC + a.nanos < b.secs * NANOS_PER_SEC
            + b.nanos) by (nonlinear_arith)
            requires
                a.nanos < NANOS_PER_SEC,
                b.nanos < NANOS_PER_SEC,
        ;
        assert(b.secs < a.secs ==> b.secs * NANOS_PER_SEC + b.nanos < a.secs * NANOS_PER_SEC
            + a.nanos) by (nonlinear_arith)
            requires
                a.nanos < NANOS_PER_SEC,
                b.nanos < NANOS_PER_SEC,
        ;
    }
}

/// A calendar date, held as its day number: January 1 of year 1 is day 1.
#[derive(Clone, Copy, Debug, PartialEq, Eq, Structural)]
pub struct Date {
    days: i32,
}

/// The number of days from Monday that chrono gives for the weekday of the date
/// with this day number; `None` where chrono has no such date.
pub uninterp spec fn chrono_weekday(day_number: i32) -> Option<u32>;

/// The day number that chrono gives for a civil date; `None` where chrono has no
/// such date.
pub uninterp spec fn chrono_day_number(year: i32, month: u32, day: u32) -> Option<i32>;

/// Calls chrono's `NaiveDate::from_num_days_from_ce_opt`, then `Datelike::weekday`
/// and `Weekday::num_days_from_monday` on the date. Claimed without proof: the
/// result depends on the day number alone, every day number from `DATE_MIN_DAYS`
/// to `DATE_MAX_DAYS` is a date, and a weekday's number is below 7.
#[verifier::external_body]
fn weekday_of_day_number(day_number: i32) -> (weekday: Option<u32>)
    ensures
        weekday == chrono_weekday(day_number),
        DATE_MIN_DAYS <= day_number <= DATE_MAX_DAYS ==> weekday is Some,
        weekday matches Some(n) ==> n < 7,
{
    match chrono::NaiveDate::from_num_days_from_ce_opt(day_number) {
        Some(date) => Some(chrono::Datelike::weekday(&date).num_days_from_monday()),
        None => None,
    }
}

/// Calls chrono's `NaiveDate::from_ymd_opt`, then `Datelike::num_days_from_ce` on
/// the date. Claimed without proof: the result depends on the three numbers alone.
#[verifier::external_body]
fn day_number_of_civil(year: i32, month: u32, day: u32) -> (day_number: Option<i32>)
    ensures
        day_number == chrono_day_number(year, month, day),
{
    match chrono::NaiveDate::from_ymd_opt(year, month, day) {
        Some(date) => Some(chrono::Datelike::num_days_from_ce(&date)),
        None => None,
    }
}

impl Date {
    /// The day number is one of the calendar.
    #[verifier::type_invariant]
    pub closed spec fn wf(self) -> bool {
        DATE_MIN_DAYS <= self.days <= DATE_MAX_DAYS
    }

    /// The day number: 1 for January 1 of year 1, counting up by one a day.
    pub closed spec fn day_number(self) -> int {
        self.days as int
    }

    /// The day of the week, as chrono's calendar has it.
    pub closed spec fn spec_weekday(&self) -> Weekday {
        match chrono_weekday(self.days) {
            Some(n) => Weekday::at(n as int),
            None => Weekday::Mon,
        }
    }

    /// The date with the given day number.
    pub closed spec fn at_day(day_number: int) -> Date {
        Date { days: day_number as i32 }
    }

    /// The date at a day number within the calendar has that day number.
    pub proof fn lemma_at_day(day_number: int)
        requires
            DATE_MIN_DAYS <= day_number <= DATE_MAX_DAYS,
        ensures
            Date::at_day(day_number).day_number() == day_number,
            Date::at_day(day_number).wf(),
    {
    }

    /// Two dates with one day number are one date.
    pub proof fn lemma_day_number_injective(a: Date, b: Date)
        ensures
            a.day_number() == b.day_number() <==> a == b,
    {
    }

    /// Every date lies within the range of day numbers.
    pub proof fn lemma_wf_range(self)
        ensures
            self.wf() <==> DATE_MIN_DAYS <= self.day_number() <= DATE_MAX_DAYS,
    {
    }

    /// The date with the given day number, if it lies in the calendar's range.
    pub fn from_num_days_from_ce_opt(days: i32) -> (date: Option<Date>)
        ensures
            date is Some <==> DATE_MIN_DAYS <= days <= DATE_MAX_DAYS,
            date matches Some(d) ==> d.wf() && d.day_number() == days,
    {
        if DATE_MIN_DAYS <= days && days <= DATE_MAX_DAYS {
            Some(Date { days })
        } else {
            None
        }
    }

    /// What `from_ymd_opt` returns: the date whose day number chrono gives for the
    /// civil date.
    pub open spec fn civil(year: i32, month: u32, day: u32) -> Option<int> {
        match chrono_day_number(year, month, day) {
            Some(n) => if DATE_MIN_DAYS <= n <= DATE_MAX_DAYS {
                Some(n as int)
            } else {
                None
            },
            None => None,
        }
    }

    /// The date of a year, month and day of the month, if chrono has it.
    pub fn from_ymd_opt(year: i32, month: u32, day: u32) -> (date: Option<Date>)
        ensures
            date is Some <==> Date::civil(year, month, day) is Some,
            date matches Some(d) ==> d.wf() && Some(d.day_number()) == Date::civil(
                year,
                month,
                day,
            ),
    {
        match day_number_of_civil(year, month, day) {
            Some(n) => Date::from_num_days_from_ce_opt(n),
            None => None,
        }
    }

    pub fn num_days_from_ce(&self) -> (days: i32)
        ensures
            days == self.day_number(),
            DATE_MIN_DAYS <= days <= DATE_MAX_DAYS,
    {
        proof {
            use_type_invariant(self);
        }
        self.days
    }

    /// The day of the week this date falls on.
    #[verifier::when_used_as_spec(spec_weekday)]
    pub fn weekday(&self) -> (day: Weekday)
        ensures
            day == self.weekday(),
    {
        proof {
            use_type_invariant(self);
        }
        match weekday_of_day_number(self.days) {
            Some(n) => match Weekday::from_days_from_monday(n) {
                Some(day) => day,
                None => Weekday::Mon,
            },
            None => Weekday::Mon,
        }
    }

    /// The date `days` days later; `None` past the end of the calendar.
    pub fn checked_add_days(&self, days: u64) -> (date: Option<Date>)
        ensures
            date is Some <==> self.day_number() + days <= DATE_MAX_DAYS,
            date matches Some(d) ==> d.wf() && d.day_number() == self.day_number() + days,
    {
        proof {
            use_type_invariant(self);
        }
        if days <= (DATE_MAX_DAYS as i64 - self.days as i64) as u64 {
            Some(Date { days: (self.days as i64 + days as i64) as i32 })
        } else {
            None
        }
    }

    /// The number of days from `earlier` to this date, negative if this date is
    /// the earlier one.
    pub fn days_since(&self, earlier: &Date) -> (days: i64)
        ensures
            days == self.day_number() - earlier.day_number(),
    {
        proof {
            use_type_invariant(self);
            use_type_invariant(earlier);
        }
        self.days as i64 - earlier.days as i64
    }
}

/// A date and a time of day, without a time zone.
#[derive(Clone, Copy, Debug, PartialEq, Eq, Structural)]
pub struct DateTime {
    date: Date,
    time: TimeOfDay,
}

impl DateTime {
    /// The date and the time of day are valid.
    #[verifier::type_invariant]
    pub closed spec fn wf(self) -> bool {
        self.date.wf() && self.time.wf()
    }

    /// The date-time of a date and a time of day.
    pub closed spec fn of(date: Date, time: TimeOfDay) -> DateTime {
        DateTime { date, time }
    }

    /// What a date-time is made of, and that its parts are as valid as it is.
    pub proof fn lemma_of(date: Date, time: TimeOfDay)
        ensures
            DateTime::of(date, time).date() == date,
            DateTime::of(date, time).time() == time,
            DateTime::of(date, time).wf() <==> date.wf() && time.wf(),
    {
    }

    /// The parts of a valid date-time are valid.
    pub proof fn lemma_wf_parts(self)
        ensures
            self.wf() <==> self.date().wf() && self.time().wf(),
            self == DateTime::of(self.date(), self.time()),
    {
    }

    pub closed spec fn spec_date(&self) -> Date {
        self.date
    }

    pub closed spec fn spec_time(&self) -> TimeOfDay {
        self.time
    }

    /// The position on the time line: nanoseconds since the midnight that begins
    /// day number 0.
    pub open spec fn timeline_nanos(self) -> int {
        self.date().day_number() * NANOS_PER_DAY + self.time().nanos_since_midnight()
    }

    /// A date and a time of day make one date-time.
    pub proof fn lemma_parts_injective(a: DateTime, b: DateTime)
        ensures
            (a.date() == b.date() && a.time() == b.time()) <==> a == b,
    {
    }

    /// Where a valid date-time lies on the time line.
    pub proof fn lemma_timeline_range(self)
        requires
            self.wf(),
        ensures
            DATE_MIN_DAYS * NANOS_PER_DAY <= self.timeline_nanos() < (DATE_MAX_DAYS + 1)
                * NANOS_PER_DAY,
    {
        self.time.lemma_nanos_range();
        let d = self.date.day_number();
        assert(DATE_MIN_DAYS * NANOS_PER_DAY <= d * NANOS_PER_DAY && d * NANOS_PER_DAY
            + NANOS_PER_DAY <= (DATE_MAX_DAYS + 1) * NANOS_PER_DAY) by (nonlinear_arith)
            requires
                DATE_MIN_DAYS <= d <= DATE_MAX_DAYS,
        ;
    }

    /// Date-times are ordered on the time line as their dates and, within one
    /// date, their times of day are.
    pub proof fn lemma_timeline_order(a: DateTime, b: DateTime)
        requires
            a.wf(),
            b.wf(),
        ensures
            a.timeline_nanos() < b.timeline_nanos() <==> (a.date().day_number()
                < b.date().day_number() || (a.date() == b.date()
                && a.time().nanos_since_midnight() < b.time().nanos_since_midnight())),
            a.timeline_nanos() == b.timeline_nanos() <==> a == b,
    {
        a.time.lemma_nanos_range();
        b.time.lemma_nanos_range();
        TimeOfDay::lemma_nanos_injective(a.time, b.time);
        let da = a.date.day_number();
        let db = b.date.day_number();
        assert(da < db ==> da * NANOS_PER_DAY + NANOS_PER_DAY <= db * NANOS_PER_DAY)
            by (nonlinear_arith);
        assert(db < da ==> db * NANOS_PER_DAY + NANOS_PER_DAY <= da * NANOS_PER_DAY)
            by (nonlinear_arith);
    }

    pub fn new(date: Date, time: TimeOfDay) -> (dt: DateTime)
        ensures
            dt == DateTime::of(date, time),
            dt.wf(),
            dt.date() == date,
            dt.time() == time,
    {
        proof {
            use_type_invariant(date);
            use_type_invariant(time);
        }
        DateTime { date, time }
    }

    #[verifier::when_used_as_spec(spec_date)]
    pub fn date(&self) -> (date: Date)
        ensures
            date == self.date(),
            date.wf(),
    {
        proof {
            use_type_invariant(self.date);
        }
        self.date
    }

    #[verifier::when_used_as_spec(spec_time)]
    pub fn time(&self) -> (time: TimeOfDay)
        ensures
            time == self.time(),
            time.wf(),
    {
        proof {
            use_type_invariant(self.time);
        }
        self.time
    }

    /// The day of the week that the date falls on.
    pub fn weekday(&self) -> (day: Weekday)
        ensures
            day == self.date().weekday(),
    {
        self.date.weekday()
    }

    /// The position on the time line, as a machine integer.
    pub fn to_timeline_nanos(&self) -> (nanos: i128)
        ensures
            nanos == self.timeline_nanos(),
    {
        proof {
            use_type_invariant(self.date);
            use_type_invariant(self.time);
        }
        (self.date.days as i128) * 86_400_000_000_000i128 + (self.time.secs as i128)
            * 1_000_000_000i128 + (self.time.nanos as i128)
    }

    /// Whether this date-time is `other` or comes after it.
    pub fn is_at_or_after(&self, other: &DateTime) -> (later: bool)
        ensures
            later == (self.timeline_nanos() >= other.timeline_nanos()),
    {
        self.to_timeline_nanos() >= other.to_timeline_nanos()
    }
}

/// A signed span of time, to the nanosecond.
#[derive(Clone, Copy, Debug, PartialEq, Eq, Structural)]
pub struct Duration {
    secs: i64,
    nanos: u32,
}

impl Duration {
    /// The nanoseconds are within a second.
    #[verifier::type_invariant]
    pub closed spec fn wf(self) -> bool {
        self.nanos < NANOS_PER_SEC
    }

    /// The span in nanoseconds.
    pub closed spec fn total_nanos(self) -> int {
        self.secs * NANOS_PER_SEC + self.nanos
    }

    /// A span of whole seconds and a count of nanoseconds on top of them; `None`
    /// if the nanoseconds make a second or more.
    pub fn new(secs: i64, nanos: u32) -> (span: Option<Duration>)
        ensures
            span is Some <==> nanos < NANOS_PER_SEC,
            span matches Some(d) ==> d.wf() && d.total_nanos() == secs * NANOS_PER_SEC + nanos,
    {
        if nanos < NANOS_PER_SEC {
            Some(Duration { secs, nanos })
        } else {
            None
        }
    }

    pub fn seconds(secs: i64) -> (span: Duration)
        ensures
            span.wf(),
            span.total_nanos() == secs * NANOS_PER_SEC,
    {
        Duration { secs, nanos: 0 }
    }

    /// A span of whole hours; `None` if the seconds do not fit 64 bits.
    pub fn try_hours(hours: i64) -> (span: Option<Duration>)
        ensures
            span is Some <==> i64::MIN <= hours * 3600 <= i64::MAX,
            span matches Some(d) ==> d.wf() && d.total_nanos() == hours * 3600 * NANOS_PER_SEC,
    {
        match hours.checked_mul(3600) {
            Some(secs) => Some(Duration { secs, nanos: 0 }),
            None => None,
        }
    }

    /// A span of whole hours.
    pub fn hours(hours: i64) -> (span: Duration)
        requires
            i64::MIN <= hours * 3600 <= i64::MAX,
        ensures
            span.wf(),
            span.total_nanos() == hours * 3600 * NANOS_PER_SEC,
    {
        Duration { secs: hours * 3600, nanos: 0 }
    }

    /// The span in nanoseconds, as a machine integer.
    pub fn to_total_nanos(&self) -> (nanos: i128)
        ensures
            nanos == self.total_nanos(),
    {
        proof {
            use_type_invariant(self);
        }
        (self.secs as i128) * 1_000_000_000i128 + (self.nanos as i128)
    }
}

} // verus!
