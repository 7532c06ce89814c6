//! The time group of a trend forecast, such as `FM1230`, `TL 1400Z` or `AT0900`.

use crate::datetime::{CivilDateTime, CivilTime, UtcTime};
use crate::error::DecodeError;
use crate::metar::time::MetarTime;
use crate::metar::value::token_result;
use crate::text::{
    advances, char_at, chars_of, decimal, digits_at, ends_at, has_digits, has_two, is_word2,
    peek, read_digits, two_at, word2,
};
use vstd::prelude::*;

verus! {

/// What the time of a trend forecast says of the change.
#[derive(Clone, Copy, Debug, PartialEq, Eq, Structural)]
pub enum TrendTimeIndicator {
    /// The change begins at the time.
    From,
    /// The change is over by the time.
    Until,
    /// The change happens at the time.
    At,
}

impl TrendTimeIndicator {
    /// The indicator that `FM`, `TL` or `AT` names.
    pub open spec fn of_token(s: Seq<char>) -> Option<TrendTimeIndicator> {
        if word2(s, 'F', 'M') {
            Some(TrendTimeIndicator::From)
        } else if word2(s, 'T', 'L') {
            Some(TrendTimeIndicator::Until)
        } else if word2(s, 'A', 'T') {
            Some(TrendTimeIndicator::At)
        } else {
            None
        }
    }

    pub fn from_chars(token: &[char]) -> (r: Result<TrendTimeIndicator, DecodeError>)
        ensures
            r == token_result(
                TrendTimeIndicator::of_token(token@),
                DecodeError::InvalidTrendTimeIndicator,
            ),
    {
        if is_word2(token, 'F', 'M') {
            Ok(TrendTimeIndicator::From)
        } else if is_word2(token, 'T', 'L') {
            Ok(TrendTimeIndicator::Until)
        } else if is_word2(token, 'A', 'T') {
            Ok(TrendTimeIndicator::At)
        } else {
            Err(DecodeError::InvalidTrendTimeIndicator)
        }
    }

    /// Reads `FM`, `TL` or `AT`.
    pub fn from_str(s: &str) -> (r: Result<TrendTimeIndicator, DecodeError>)
        ensures
            r == token_result(
                TrendTimeIndicator::of_token(s@),
                DecodeError::InvalidTrendTimeIndicator,
            ),
    {
        let token = chars_of(s);
        TrendTimeIndicator::from_chars(token.as_slice())
    }
}

/// The time of a trend forecast.
#[derive(Clone, Copy, Debug, PartialEq, Eq, Structural)]
pub struct TrendTime {
    pub indicator: TrendTimeIndicator,
    /// The time, unless hour and minute name none.
    pub time: Option<MetarTime>,
}

/// The time of day that hour and minute of a trend give, where hour 24
/// stands for midnight; resolved around the anchor if there is one.
pub open spec fn trend_moment(hour: int, minute: int, anchor: Option<CivilDateTime>) -> Option<
    MetarTime,
> {
    let h = if hour == 24 {
        0
    } else {
        hour
    };
    match CivilTime::of_hms(h as u32, minute as u32, 0) {
        None => None,
        Some(t) => match anchor {
            None => Some(MetarTime::Time(UtcTime(t))),
            Some(a) => match MetarTime::Time(UtcTime(t)).resolved(a) {
                Ok(m) => Some(m),
                Err(_) => None,
            },
        },
    }
}

/// The trend time group at `at`: `FM`, `TL` or `AT`, optionally a blank, two
/// digits of hour and two of minute, optionally `Z`, and a blank.
#[verifier::opaque]
pub open spec fn trend_time_group(s: Seq<char>, at: int, anchor: Option<CivilDateTime>) -> Option<
    (TrendTime, usize),
> {
    let h = if char_at(s, at + 2) == ' ' {
        at + 3
    } else {
        at + 2
    };
    let e = if char_at(s, h + 4) == 'Z' {
        h + 5
    } else {
        h + 4
    };
    let indicator = if two_at(s, at, 'F', 'M') {
        Some(TrendTimeIndicator::From)
    } else if two_at(s, at, 'T', 'L') {
        Some(TrendTimeIndicator::Until)
    } else if two_at(s, at, 'A', 'T') {
        Some(TrendTimeIndicator::At)
    } else {
        None
    };
    if indicator is None || !digits_at(s, h, 4) || !ends_at(s, e) {
        None
    } else {
        Some(
            (
                TrendTime {
                    indicator: indicator->0,
                    time: trend_moment(decimal(s, h, 2), decimal(s, h + 2, 2), anchor),
                },
                (e + 1 - at) as usize,
            ),
        )
    }
}

/// Matches a trend time group at `at`.
pub fn trend_time_at(text: &[char], at: usize, anchor_time: Option<CivilDateTime>) -> (r: Option<
    (TrendTime, usize),
>)
    requires
        at <= text.len(),
        anchor_time is Some ==> anchor_time->0.can_anchor(),
    ensures
        r == trend_time_group(text@, at as int, anchor_time),
        advances(r, at, text@.len()),
{
    reveal(trend_time_group);
    let indicator = if has_two(text, at, 'F', 'M') {
        TrendTimeIndicator::From
    } else if has_two(text, at, 'T', 'L') {
        TrendTimeIndicator::Until
    } else if has_two(text, at, 'A', 'T') {
        TrendTimeIndicator::At
    } else {
        return None;
    };
    let h = if peek(text, at, 2) == ' ' {
        at + 3
    } else {
        at + 2
    };
    if !has_digits(text, h, 4) {
        return None;
    }
    let e = if peek(text, h, 4) == 'Z' {
        h + 5
    } else {
        h + 4
    };
    if peek(text, e, 0) != ' ' {
        return None;
    }
    let hour = read_digits(text, h, 2);
    let minute = read_digits(text, h + 2, 2);
    Some((TrendTime { indicator, time: moment(hour, minute, anchor_time) }, e + 1 - at))
}

fn moment(hour: u32, minute: u32, anchor_time: Option<CivilDateTime>) -> (r: Option<MetarTime>)
    requires
        anchor_time is Some ==> anchor_time->0.can_anchor(),
    ensures
        r == trend_moment(hour as int, minute as int, anchor_time),
{
    let hour = if hour == 24 {
        0
    } else {
        hour
    };
    match CivilTime::from_hm(hour, minute) {
        None => None,
        Some(t) => {
            let time = MetarTime::Time(UtcTime(t));
            match anchor_time {
                None => Some(time),
                Some(a) => match time.to_date_time(a) {
                    Ok(m) => Some(m),
                    Err(_) => None,
                },
            }
        },
    }
}

/// Matches a trend time group at the start of `text`.
pub fn handle_trend_time(text: &str, anchor_time: Option<CivilDateTime>) -> (r: Option<
    (TrendTime, usize),
>)
    requires
        anchor_time is Some ==> anchor_time->0.can_anchor(),
    ensures
        r == trend_time_group(text@, 0, anchor_time),
        advances(r, 0, text@.len()),
{
    let chars = chars_of(text);
    trend_time_at(chars.as_slice(), 0, anchor_time)
}

} // verus!
