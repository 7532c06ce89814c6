//! Calendar dates and times of day in UTC.
//!
//! Dates follow the proleptic Gregorian calendar. The types hold plain fields;
//! the calendar arithmetic itself is done by `chrono` and `chronoutil`, whose
//! results are stated here over the calendar's own rules: leap years, lengths
//! of months and the running number of a day.

use chrono::{Datelike, Timelike};
use vstd::prelude::*;

verus! {

/// The first year that a [`CivilDate`] can hold.
pub const MIN_YEAR: i32 = -262_143;

/// The last year that a [`CivilDate`] can hold.
pub const MAX_YEAR: i32 = 262_142;

/// Seconds in a day.
pub const DAY_SECONDS: i64 = 86_400;

/// Whether `year` has a 29th of February.
pub open spec fn is_leap_year(year: int) -> bool {
    year % 4 == 0 && (year % 100 != 0 || year % 400 == 0)
}

/// The number of days of `month` in `year`.
pub open spec fn days_in_month(year: int, month: int) -> int {
    if month == 2 {
        if is_leap_year(year) {
            29
        } else {
            28
        }
    } else if month == 4 || month == 6 || month == 9 || month == 11 {
        30
    } else {
        31
    }
}

/// The number of days of `year` that lie before the first of `month`.
pub open spec fn days_before_month(year: int, month: int) -> int
    decreases month,
{
    if month <= 1 {
        0
    } else {
        days_before_month(year, month - 1) + days_in_month(year, month - 1)
    }
}

/// The number of days from the first of January of year 1 to the first of
/// January of `year`.
pub open spec fn days_before_year(year: int) -> int {
    365 * (year - 1) + (year - 1) / 4 - (year - 1) / 100 + (year - 1) / 400
}

/// A calendar date.
#[derive(Clone, Copy, Debug, PartialEq, Eq, Structural)]
pub struct CivilDate {
    pub year: i32,
    pub month: u32,
    pub day: u32,
}

/// A time of day, to the second.
#[derive(Clone, Copy, Debug, PartialEq, Eq, Structural)]
pub struct CivilTime {
    pub hour: u32,
    pub minute: u32,
    pub second: u32,
}

/// A date and a time of day.
#[derive(Clone, Copy, Debug, PartialEq, Eq, Structural)]
pub struct CivilDateTime {
    pub date: CivilDate,
    pub time: CivilTime,
}

/// A date and time in UTC. Written `2023-12-27T08:30:00Z`.
#[derive(Clone, Copy, Debug, PartialEq, Eq, Structural)]
pub struct UtcDateTime(pub CivilDateTime);

/// A day of the month and a time in UTC. Written `[27, "08:30:00Z"]`.
#[derive(Clone, Copy, Debug, PartialEq, Eq, Structural)]
pub struct UtcDayTime(pub u32, pub CivilTime);

/// A time of day in UTC. Written `08:30:00Z`.
#[derive(Clone, Copy, Debug, PartialEq, Eq, Structural)]
pub struct UtcTime(pub CivilTime);

impl CivilTime {
    /// A time is well formed when it names a second of the day.
    pub open spec fn wf(self) -> bool {
        self.hour < 24 && self.minute < 60 && self.second < 60
    }

    /// The seconds since midnight.
    pub open spec fn seconds(self) -> int {
        self.hour * 3600 + self.minute * 60 + self.second
    }

    /// The time of day `hour:min:sec`, if there is one.
    pub open spec fn of_hms(hour: u32, min: u32, sec: u32) -> Option<CivilTime> {
        if hour < 24 && min < 60 && sec < 60 {
            Some(CivilTime { hour, minute: min, second: sec })
        } else {
            None
        }
    }

    /// `chrono::NaiveTime::from_hms_opt`: the time of day with these fields, or
    /// nothing when the hour is not below 24 or minute or second not below 60.
    #[verifier::external_body]
    pub(crate) fn from_hms_opt(hour: u32, min: u32, sec: u32) -> (r: Option<CivilTime>)
        ensures
            r == CivilTime::of_hms(hour, min, sec),
    {
        match chrono::NaiveTime::from_hms_opt(hour, min, sec) {
            Some(t) => Some(CivilTime { hour: t.hour(), minute: t.minute(), second: t.second() }),
            None => None,
        }
    }

    /// Whether the time is well formed.
    pub fn is_valid(&self) -> (r: bool)
        ensures
            r == self.wf(),
    {
        self.hour < 24 && self.minute < 60 && self.second < 60
    }

    /// The time of day `hour:minute:00`, if hour and minute name one.
    pub fn from_hm(hour: u32, minute: u32) -> (r: Option<CivilTime>)
        ensures
            r == CivilTime::of_hms(hour, minute, 0),
            r is Some ==> r->0.wf(),
    {
        CivilTime::from_hms_opt(hour, minute, 0)
    }
}

impl CivilDate {
    /// A date is well formed when the calendar has it and its year lies
    /// between [`MIN_YEAR`] and [`MAX_YEAR`].
    pub open spec fn wf(self) -> bool {
        &&& MIN_YEAR <= self.year <= MAX_YEAR
        &&& 1 <= self.month <= 12
        &&& 1 <= self.day <= days_in_month(self.year as int, self.month as int)
    }

    /// The running number of the day, counted from the first of January of
    /// year 1.
    pub open spec fn day_number(self) -> int {
        days_before_year(self.year as int) + days_before_month(
            self.year as int,
            self.month as int,
        ) + self.day - 1
    }

    /// The months since the start of year 0.
    pub open spec fn month_number(self) -> int {
        self.year * 12 + self.month - 1
    }

    /// The same year and month with another day, where the month has it.
    pub open spec fn on_day(self, day: u32) -> Option<CivilDate> {
        if 1 <= day <= days_in_month(self.year as int, self.month as int) {
            Some(CivilDate { year: self.year, month: self.month, day })
        } else {
            None
        }
    }

    /// The date `months` months later: the same day of the month, or the
    /// month's last day where it is shorter.
    pub open spec fn months_later(self, months: int) -> CivilDate {
        let m = self.month_number() + months;
        let year = m / 12;
        let month = m % 12 + 1;
        let last = days_in_month(year, month);
        CivilDate {
            year: year as i32,
            month: month as u32,
            day: if self.day <= last {
                self.day
            } else {
                last as u32
            },
        }
    }

    /// The day after.
    pub open spec fn next_day(self) -> CivilDate {
        if self.day < days_in_month(self.year as int, self.month as int) {
            CivilDate { year: self.year, month: self.month, day: (self.day + 1) as u32 }
        } else if self.month < 12 {
            CivilDate { year: self.year, month: (self.month + 1) as u32, day: 1 }
        } else {
            CivilDate { year: (self.year + 1) as i32, month: 1, day: 1 }
        }
    }

    /// The day before.
    pub open spec fn previous_day(self) -> CivilDate {
        if self.day > 1 {
            CivilDate { year: self.year, month: self.month, day: (self.day - 1) as u32 }
        } else if self.month > 1 {
            CivilDate {
                year: self.year,
                month: (self.month - 1) as u32,
                day: days_in_month(self.year as int, self.month - 1) as u32,
            }
        } else {
            CivilDate { year: (self.year - 1) as i32, month: 12, day: 31 }
        }
    }

    /// The date `days` days later, for one day either way.
    pub open spec fn days_later(self, days: int) -> CivilDate {
        if days == 1 {
            self.next_day()
        } else if days == -1 {
            self.previous_day()
        } else {
            self
        }
    }

    /// `chrono::NaiveDate::from_ymd_opt`: whether the calendar has the date
    /// and its year lies between [`MIN_YEAR`] and [`MAX_YEAR`].
    #[verifier::external_body]
    pub(crate) fn in_calendar(self) -> (r: bool)
        ensures
            r == self.wf(),
    {
        chrono::NaiveDate::from_ymd_opt(self.year, self.month, self.day).is_some()
    }

    /// Whether the date is well formed.
    pub fn is_valid(&self) -> (r: bool)
        ensures
            r == self.wf(),
    {
        self.in_calendar()
    }

    /// `chrono::NaiveDate::with_day`: the date with the day of the month
    /// replaced, or nothing when the month has no such day.
    #[verifier::external_body]
    pub(crate) fn with_day(self, day: u32) -> (r: Option<CivilDate>)
        requires
            self.wf(),
        ensures
            r == self.on_day(day),
    {
        let date = chrono::NaiveDate::from_ymd_opt(self.year, self.month, self.day)?.with_day(day)?;
        Some(CivilDate { year: date.year(), month: date.month(), day: date.day() })
    }

    /// Adding `chronoutil::RelativeDuration::months` to a `chrono::NaiveDate`:
    /// the month moves by `months`, the year with it, and a day that the new
    /// month lacks becomes the month's last. The year must leave room for the
    /// move.
    #[verifier::external_body]
    pub(crate) fn shift_months(self, months: i32) -> (r: CivilDate)
        requires
            self.wf(),
            MIN_YEAR < self.year < MAX_YEAR,
            -12 <= months <= 12,
        ensures
            r == self.months_later(months as int),
    {
        let date = chrono::NaiveDate::from_ymd_opt(self.year, self.month, self.day).unwrap()
            + chronoutil::RelativeDuration::months(months);
        CivilDate { year: date.year(), month: date.month(), day: date.day() }
    }

    /// Adding `chrono::Duration::days` to a `chrono::NaiveDate`, for one day
    /// either way: the next or the previous day of the calendar. The year must
    /// leave room for the move.
    #[verifier::external_body]
    pub(crate) fn shift_days(self, days: i64) -> (r: CivilDate)
        requires
            self.wf(),
            MIN_YEAR < self.year < MAX_YEAR,
            -1 <= days <= 1,
        ensures
            r == self.days_later(days as int),
    {
        let date = chrono::NaiveDate::from_ymd_opt(self.year, self.month, self.day).unwrap()
            + chrono::Duration::days(days);
        CivilDate { year: date.year(), month: date.month(), day: date.day() }
    }
}

impl CivilDateTime {
    pub open spec fn wf(self) -> bool {
        self.date.wf() && self.time.wf()
    }

    /// Whether partial times can be resolved around this moment: it is well
    /// formed and its year is neither the first nor the last, so that the months
    /// and days next to it exist.
    pub open spec fn can_anchor(self) -> bool {
        self.wf() && MIN_YEAR < self.date.year < MAX_YEAR
    }

    /// The seconds since the start of the first of January of year 1.
    pub open spec fn seconds(self) -> int {
        self.date.day_number() * DAY_SECONDS + self.time.seconds()
    }

    /// Whether date and time are well formed.
    pub fn is_valid(&self) -> (r: bool)
        ensures
            r == self.wf(),
    {
        self.date.is_valid() && self.time.is_valid()
    }

    /// Whether partial times can be resolved around this moment.
    pub fn is_anchor(&self) -> (r: bool)
        ensures
            r == self.can_anchor(),
    {
        self.is_valid() && MIN_YEAR < self.date.year && self.date.year < MAX_YEAR
    }

    /// `chrono::NaiveDateTime::signed_duration_since` and
    /// `chrono::TimeDelta::num_seconds`: the seconds from `other` to `self`,
    /// negative when `self` is the earlier.
    #[verifier::external_body]
    pub(crate) fn seconds_since(self, other: CivilDateTime) -> (r: i64)
        requires
            self.wf(),
            other.wf(),
        ensures
            r == self.seconds() - other.seconds(),
    {
        let a = chrono::NaiveDate::from_ymd_opt(self.date.year, self.date.month, self.date.day)
            .unwrap().and_hms_opt(self.time.hour, self.time.minute, self.time.second).unwrap();
        let b = chrono::NaiveDate::from_ymd_opt(other.date.year, other.date.month, other.date.day)
            .unwrap().and_hms_opt(other.time.hour, other.time.minute, other.time.second).unwrap();
        a.signed_duration_since(b).num_seconds()
    }
}

/// A well-formed date and time lies within 2^45 seconds of the start of
/// year 1.
pub proof fn lemma_seconds_bound(t: CivilDateTime)
    requires
        t.wf(),
    ensures
        -0x2000_0000_0000 < t.seconds() < 0x2000_0000_0000,
{
    lemma_month_start(t.date.year as int, t.date.month as int);
}

/// Fewer than 336 days of a year lie before the first of any of its months.
pub proof fn lemma_month_start(year: int, month: int)
    requires
        1 <= month <= 12,
    ensures
        0 <= days_before_month(year, month) <= 335,
{
    reveal_with_fuel(days_before_month, 13);
}

/// Moving a well-formed date by one month or one day, or to another day that
/// its month has, gives a well-formed date unless it leaves the range of years.
pub proof fn lemma_moves_stay_well_formed(d: CivilDate)
    requires
        d.wf(),
    ensures
        MIN_YEAR < d.year ==> d.months_later(-1).wf() && d.previous_day().wf(),
        d.year < MAX_YEAR ==> d.months_later(1).wf() && d.next_day().wf(),
        d.month > 1 ==> d.months_later(-1).year == d.year && d.months_later(-1).month == d.month
            - 1,
        d.month == 1 ==> d.months_later(-1).year == d.year - 1 && d.months_later(-1).month == 12,
        d.month < 12 ==> d.months_later(1).year == d.year && d.months_later(1).month == d.month
            + 1,
        d.month == 12 ==> d.months_later(1).year == d.year + 1 && d.months_later(1).month == 1,
        forall|day: u32| #[trigger] d.on_day(day) is Some ==> d.on_day(day)->0.wf(),
{
}

} // verus!
