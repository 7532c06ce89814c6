//! Times as a report gives them, and how a partial time becomes a full one.
//!
//! A report never spells a full date: its header has the day of the month and
//! the time, a trend only the time. Given an anchor, a moment known to be near
//! the report, the missing parts are filled in so that the result is the
//! moment nearest to the anchor.

use crate::datetime::{
    days_in_month, lemma_moves_stay_well_formed, lemma_seconds_bound,
    CivilDate, CivilDateTime, CivilTime, UtcDateTime, UtcDayTime, UtcTime, DAY_SECONDS,
};
use crate::error::DecodeError;
use vstd::prelude::*;

verus! {

/// Date and time as far as a report states them.
#[derive(Clone, Copy, Debug, PartialEq, Eq, Structural)]
pub enum MetarTime {
    /// Date and time.
    DateTime(UtcDateTime),
    /// Day of the month and time.
    DayTime(UtcDayTime),
    /// Time only.
    Time(UtcTime),
}

/// The distance in seconds between `t` and `anchor`.
pub open spec fn distance(t: CivilDateTime, anchor: CivilDateTime) -> int {
    let d = t.seconds() - anchor.seconds();
    if d < 0 {
        -d
    } else {
        d
    }
}

/// `date` at `time`, if there is a date.
pub open spec fn at_time(date: Option<CivilDate>, time: CivilTime) -> Option<CivilDateTime> {
    match date {
        Some(d) => Some(CivilDateTime { date: d, time }),
        None => None,
    }
}

/// The better of a guess made so far and a candidate: the candidate only if
/// it is strictly nearer to the anchor.
pub open spec fn nearer(
    best: Option<CivilDateTime>,
    candidate: Option<CivilDateTime>,
    anchor: CivilDateTime,
) -> Option<CivilDateTime> {
    match (best, candidate) {
        (_, None) => best,
        (None, Some(c)) => Some(c),
        (Some(b), Some(c)) => if distance(c, anchor) < distance(b, anchor) {
            Some(c)
        } else {
            Some(b)
        },
    }
}

/// The nearest of three candidates, the earlier in the list on a tie.
pub open spec fn nearest(
    first: Option<CivilDateTime>,
    second: Option<CivilDateTime>,
    third: Option<CivilDateTime>,
    anchor: CivilDateTime,
) -> Option<CivilDateTime> {
    nearer(nearer(nearer(None, first, anchor), second, anchor), third, anchor)
}

/// The moment with day of month `day` and time of day `time` nearest to
/// `anchor`, among the anchor's month, the month before and the month after.
pub open spec fn nearest_day(day: u32, time: CivilTime, anchor: CivilDateTime) -> Option<
    CivilDateTime,
> {
    nearest(
        at_time(anchor.date.on_day(day), time),
        at_time(anchor.date.months_later(-1).on_day(day), time),
        at_time(anchor.date.months_later(1).on_day(day), time),
        anchor,
    )
}

/// The moment with time of day `time` nearest to `anchor`, among the anchor's
/// day, the day before and the day after.
pub open spec fn nearest_time(time: CivilTime, anchor: CivilDateTime) -> CivilDateTime {
    nearest(
        Some(CivilDateTime { date: anchor.date, time }),
        Some(CivilDateTime { date: anchor.date.previous_day(), time }),
        Some(CivilDateTime { date: anchor.date.next_day(), time }),
        anchor,
    )->0
}

impl MetarTime {
    /// A time is well formed when its parts are. The day of a
    /// [`MetarTime::DayTime`] may be any number.
    pub open spec fn wf(self) -> bool {
        match self {
            MetarTime::DateTime(UtcDateTime(t)) => t.wf(),
            MetarTime::DayTime(UtcDayTime(_, time)) => time.wf(),
            MetarTime::Time(UtcTime(time)) => time.wf(),
        }
    }

    /// Whether the time is well formed.
    pub fn is_valid(&self) -> (r: bool)
        ensures
            r == self.wf(),
    {
        match self {
            MetarTime::DateTime(UtcDateTime(t)) => t.is_valid(),
            MetarTime::DayTime(UtcDayTime(_, time)) => time.is_valid(),
            MetarTime::Time(UtcTime(time)) => time.is_valid(),
        }
    }

    /// What [`MetarTime::to_date_time`] returns.
    pub open spec fn resolved(self, anchor: CivilDateTime) -> Result<MetarTime, DecodeError> {
        match self {
            MetarTime::DateTime(_) => Ok(self),
            MetarTime::DayTime(UtcDayTime(day, time)) => match nearest_day(day, time, anchor) {
                Some(t) => Ok(MetarTime::DateTime(UtcDateTime(t))),
                None => Err(DecodeError::InvalidDate),
            },
            MetarTime::Time(UtcTime(time)) => Ok(
                MetarTime::DateTime(UtcDateTime(nearest_time(time, anchor))),
            ),
        }
    }

    /// Converts any [`MetarTime`] into a [`MetarTime::DateTime`].
    ///
    /// A full date and time is returned as it is. A day and time becomes that
    /// day in the anchor's month, the month before or the month after,
    /// whichever moment is nearest to the anchor and exists; it is an error if
    /// none of the three months has the day. A time alone becomes that time on
    /// the anchor's day, the day before or the day after, whichever is nearest.
    /// Of two moments equally near, the one named first is taken.
    pub fn to_date_time(&self, anchor_time: CivilDateTime) -> (r: Result<MetarTime, DecodeError>)
        requires
            self.wf(),
            anchor_time.can_anchor(),
        ensures
            r == self.resolved(anchor_time),
            r is Ok ==> r->Ok_0.wf() && r->Ok_0 is DateTime,
    {
        proof {
            lemma_moves_stay_well_formed(anchor_time.date);
            lemma_moves_stay_well_formed(anchor_time.date.months_later(-1));
            lemma_moves_stay_well_formed(anchor_time.date.months_later(1));
        }
        match self {
            MetarTime::DateTime(t) => Ok(MetarTime::DateTime(*t)),
            MetarTime::DayTime(UtcDayTime(day, time)) => {
                let date = anchor_time.date;
                let first = combine(date.with_day(*day), *time);
                let second = combine(date.shift_months(-1).with_day(*day), *time);
                let third = combine(date.shift_months(1).with_day(*day), *time);
                let best = pick(pick(pick(None, first, anchor_time), second, anchor_time), third,
                    anchor_time);
                match best {
                    Some(t) => Ok(MetarTime::DateTime(UtcDateTime(t))),
                    None => Err(DecodeError::InvalidDate),
                }
            },
            MetarTime::Time(UtcTime(time)) => {
                let date = anchor_time.date;
                let first = Some(CivilDateTime { date, time: *time });
                let second = Some(CivilDateTime { date: date.shift_days(-1), time: *time });
                let third = Some(CivilDateTime { date: date.shift_days(1), time: *time });
                let best = pick(pick(pick(None, first, anchor_time), second, anchor_time), third,
                    anchor_time);
                match best {
                    Some(t) => Ok(MetarTime::DateTime(UtcDateTime(t))),
                    None => Err(DecodeError::InvalidDate),
                }
            },
        }
    }
}

fn combine(date: Option<CivilDate>, time: CivilTime) -> (r: Option<CivilDateTime>)
    ensures
        r == at_time(date, time),
{
    match date {
        Some(d) => Some(CivilDateTime { date: d, time }),
        None => None,
    }
}

fn gap(t: CivilDateTime, anchor: CivilDateTime) -> (r: i64)
    requires
        t.wf(),
        anchor.wf(),
    ensures
        r == distance(t, anchor),
{
    proof {
        lemma_seconds_bound(t);
        lemma_seconds_bound(anchor);
    }
    let d = t.seconds_since(anchor);
    if d < 0 {
        -d
    } else {
        d
    }
}

fn pick(best: Option<CivilDateTime>, candidate: Option<CivilDateTime>, anchor: CivilDateTime) -> (r:
    Option<CivilDateTime>)
    requires
        anchor.wf(),
        best is Some ==> best->0.wf(),
        candidate is Some ==> candidate->0.wf(),
    ensures
        r == nearer(best, candidate, anchor),
        r is Some ==> r->0.wf(),
{
    match (best, candidate) {
        (_, None) => best,
        (None, Some(c)) => Some(c),
        (Some(b), Some(c)) => {
            if gap(c, anchor) < gap(b, anchor) {
                Some(c)
            } else {
                Some(b)
            }
        },
    }
}

/// A full date and time resolves to itself. A day and time resolves exactly
/// when the day is one of 1 to 31, a time alone always, and the moment they
/// resolve to lies less than 31 days from the anchor.
pub proof fn lemma_resolved_near_anchor(t: MetarTime, anchor: CivilDateTime)
    requires
        t.wf(),
        anchor.wf(),
    ensures
        t is DateTime ==> t.resolved(anchor) == Ok::<MetarTime, DecodeError>(t),
        t is Time ==> t.resolved(anchor) is Ok,
        t is DayTime ==> (t.resolved(anchor) is Ok <==> 1 <= t->DayTime_0.0 <= 31),
        t.resolved(anchor) is Err ==> t.resolved(anchor) == Err::<MetarTime, DecodeError>(
            DecodeError::InvalidDate,
        ),
        !(t is DateTime) && t.resolved(anchor) is Ok ==> t.resolved(anchor)->Ok_0 is DateTime
            && distance(t.resolved(anchor)->Ok_0->DateTime_0.0, anchor) < 31 * DAY_SECONDS,
{
    let date = anchor.date;
    let year = date.year as int;
    let month = date.month as int;
    match t {
        MetarTime::DateTime(_) => {},
        MetarTime::Time(UtcTime(time)) => {
            let first = CivilDateTime { date, time };
            assert(distance(first, anchor) < DAY_SECONDS);
        },
        MetarTime::DayTime(UtcDayTime(day, time)) => {
            let before = date.months_later(-1);
            let after = date.months_later(1);
            if 1 <= day <= days_in_month(year, month) {
                let first = CivilDateTime { date: date.on_day(day)->0, time };
                assert(distance(first, anchor) < 31 * DAY_SECONDS);
            } else if 1 <= day <= 31 {
                assert(month == 2 || month == 4 || month == 6 || month == 9 || month == 11);
                assert(before.year == date.year && before.month == month - 1);
                assert(days_in_month(year, month - 1) == 31);
                let second = CivilDateTime { date: before.on_day(day)->0, time };
                assert(second.date.day_number() - date.day_number() == day - 31 - date.day);
                assert(distance(second, anchor) < 31 * DAY_SECONDS);
            } else {
                assert(date.on_day(day) is None);
                assert(before.on_day(day) is None);
                assert(after.on_day(day) is None);
            }
        },
    }
}

} // verus!
