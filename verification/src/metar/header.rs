//! The identification groups that open a report, such as `KXYZ 131951Z` or
//! `LFMC 130630Z COR AUTO`.

use crate::datetime::{CivilDateTime, CivilTime, UtcDayTime};
use crate::error::DecodeError;
use crate::metar::time::MetarTime;
use crate::text::{
    advances, char_at, chars_of, copy_range, decimal, digit, digits_at, ends_at, four_at,
    has_digits, has_four, has_three, has_two, is_digit, is_upper, peek, read_digits, string_of,
    three_at, two_at, upper,
};
use vstd::prelude::*;

verus! {

/// Identification groups.
#[derive(Clone, Debug, PartialEq, Eq)]
pub struct Header {
    /// ICAO airport code.
    pub station_id: Option<String>,
    /// Observation time of the report.
    pub observation_time: Option<MetarTime>,
    /// Flag if the report is corrected.
    pub is_corrected: Option<bool>,
    /// Flag if the report comes from a fully automated observation.
    pub is_automated: Option<bool>,
}

/// What a [`Header`] holds.
pub struct HeaderView {
    pub station_id: Option<Seq<char>>,
    pub observation_time: Option<MetarTime>,
    pub is_corrected: Option<bool>,
    pub is_automated: Option<bool>,
}

impl View for Header {
    type V = HeaderView;

    open spec fn view(&self) -> HeaderView {
        HeaderView {
            station_id: match self.station_id {
                Some(s) => Some(s@),
                None => None,
            },
            observation_time: self.observation_time,
            is_corrected: self.is_corrected,
            is_automated: self.is_automated,
        }
    }
}

impl HeaderView {
    /// Whether nothing is reported.
    pub open spec fn empty(self) -> bool {
        &&& self.station_id is None
        &&& self.observation_time is None
        &&& self.is_corrected is None
        &&& self.is_automated is None
    }
}

impl Default for Header {
    fn default() -> (r: Header)
        ensures
            r@.empty(),
    {
        Header { station_id: None, observation_time: None, is_corrected: None, is_automated: None }
    }
}

impl Header {
    pub fn is_empty(&self) -> (r: bool)
        ensures
            r == self@.empty(),
    {
        self.station_id.is_none() && self.observation_time.is_none() && self.is_corrected.is_none()
            && self.is_automated.is_none()
    }
}

/// Whether `c` is a letter `A` to `Z` or a digit.
pub open spec fn is_station_char(c: char) -> bool {
    is_upper(c) || is_digit(c)
}

/// Whether a blank and the correction flag, `COR` or `CC` and a letter,
/// stand at `p`.
pub open spec fn correction_at(s: Seq<char>, p: int) -> bool {
    char_at(s, p) == ' ' && (three_at(s, p + 1, 'C', 'O', 'R') || (two_at(s, p + 1, 'C', 'C')
        && is_upper(char_at(s, p + 3))))
}

/// Whether a blank and `AUTO` stand at `p`.
pub open spec fn automation_at(s: Seq<char>, p: int) -> bool {
    char_at(s, p) == ' ' && four_at(s, p + 1, 'A', 'U', 'T', 'O')
}

/// Where the flags of a header stand.
pub struct HeaderLayout {
    pub corrected: bool,
    pub automated: bool,
    /// The first position after the group and its blank.
    pub end: usize,
}

/// The layout of the header at `at`.
///
/// The station as a letter and three letters or digits; a blank; two digits
/// each of day, hour and minute; optionally one more digit; optionally `Z`;
/// optionally a blank and `COR` or `CC` and a letter; optionally a blank and
/// `AUTO`; a blank. A flag counts only if what follows it fits too.
pub open spec fn header_layout(s: Seq<char>, at: int) -> Option<HeaderLayout> {
    let extra = at + 11 + if is_digit(char_at(s, at + 11)) {
        1int
    } else {
        0int
    };
    let p = extra + if char_at(s, extra) == 'Z' {
        1int
    } else {
        0int
    };
    if !(is_upper(char_at(s, at)) && is_station_char(char_at(s, at + 1)) && is_station_char(
        char_at(s, at + 2),
    ) && is_station_char(char_at(s, at + 3))) {
        None
    } else if char_at(s, at + 4) != ' ' || !digits_at(s, at + 5, 6) {
        None
    } else if correction_at(s, p) && automation_at(s, p + 4) && ends_at(s, p + 9) {
        Some(HeaderLayout { corrected: true, automated: true, end: (p + 10) as usize })
    } else if correction_at(s, p) && ends_at(s, p + 4) {
        Some(HeaderLayout { corrected: true, automated: false, end: (p + 5) as usize })
    } else if automation_at(s, p) && ends_at(s, p + 5) {
        Some(HeaderLayout { corrected: false, automated: true, end: (p + 6) as usize })
    } else if ends_at(s, p) {
        Some(HeaderLayout { corrected: false, automated: false, end: (p + 1) as usize })
    } else {
        None
    }
}

/// The time of observation that day, hour and minute give: a day and time,
/// resolved around the anchor if there is one.
pub open spec fn observation_moment(
    day: int,
    hour: int,
    minute: int,
    anchor: Option<CivilDateTime>,
) -> Result<MetarTime, DecodeError> {
    match CivilTime::of_hms(hour as u32, minute as u32, 0) {
        None => Err(DecodeError::InvalidTime),
        Some(t) => match anchor {
            None => Ok(MetarTime::DayTime(UtcDayTime(day as u32, t))),
            Some(a) => MetarTime::DayTime(UtcDayTime(day as u32, t)).resolved(a),
        },
    }
}

/// The header at `at`: nothing if no header stands there; an error if one
/// does and its hour and minute are no time of day, or its day exists in no
/// month near the anchor; else what it reports and the characters it takes.
#[verifier::opaque]
pub open spec fn header_group(s: Seq<char>, at: int, anchor: Option<CivilDateTime>) -> Result<
    Option<(HeaderView, usize)>,
    DecodeError,
> {
    match header_layout(s, at) {
        None => Ok(None),
        Some(l) => match observation_moment(
            decimal(s, at + 5, 2),
            decimal(s, at + 7, 2),
            decimal(s, at + 9, 2),
            anchor,
        ) {
            Err(e) => Err(e),
            Ok(time) => Ok(
                Some(
                    (
                        HeaderView {
                            station_id: Some(s.subrange(at, at + 4)),
                            observation_time: Some(time),
                            is_corrected: Some(l.corrected),
                            is_automated: Some(l.automated),
                        },
                        (l.end - at) as usize,
                    ),
                ),
            ),
        },
    }
}

/// What a match holds, for a header.
pub open spec fn header_viewed(r: Result<Option<(Header, usize)>, DecodeError>) -> Result<
    Option<(HeaderView, usize)>,
    DecodeError,
> {
    match r {
        Ok(Some((h, n))) => Ok(Some((h@, n))),
        Ok(None) => Ok(None),
        Err(e) => Err(e),
    }
}

fn station_char(c: char) -> (r: bool)
    ensures
        r == is_station_char(c),
{
    upper(c) || digit(c)
}

fn has_correction(text: &[char], p: usize) -> (r: bool)
    ensures
        r == correction_at(text@, p as int),
        r ==> p + 4 <= text.len(),
{
    peek(text, p, 0) == ' ' && (has_three(text, p + 1, 'C', 'O', 'R') || (has_two(
        text,
        p + 1,
        'C',
        'C',
    ) && upper(peek(text, p, 3))))
}

fn has_automation(text: &[char], p: usize) -> (r: bool)
    ensures
        r == automation_at(text@, p as int),
        r ==> p + 5 <= text.len(),
{
    peek(text, p, 0) == ' ' && has_four(text, p + 1, 'A', 'U', 'T', 'O')
}

fn read_layout(text: &[char], at: usize) -> (r: Option<HeaderLayout>)
    requires
        at <= text.len(),
    ensures
        r == header_layout(text@, at as int),
        r is Some ==> at + 12 <= r->0.end <= text.len(),
{
    if !(upper(peek(text, at, 0)) && station_char(peek(text, at, 1)) && station_char(
        peek(text, at, 2),
    ) && station_char(peek(text, at, 3))) {
        return None;
    }
    if peek(text, at, 4) != ' ' || !has_digits(text, at + 5, 6) {
        return None;
    }
    let extra = if digit(peek(text, at, 11)) {
        at + 12
    } else {
        at + 11
    };
    let p = if peek(text, extra, 0) == 'Z' {
        extra + 1
    } else {
        extra
    };
    if has_correction(text, p) && has_automation(text, p + 4) && peek(text, p, 9) == ' ' {
        Some(HeaderLayout { corrected: true, automated: true, end: p + 10 })
    } else if has_correction(text, p) && peek(text, p, 4) == ' ' {
        Some(HeaderLayout { corrected: true, automated: false, end: p + 5 })
    } else if has_automation(text, p) && peek(text, p, 5) == ' ' {
        Some(HeaderLayout { corrected: false, automated: true, end: p + 6 })
    } else if peek(text, p, 0) == ' ' {
        Some(HeaderLayout { corrected: false, automated: false, end: p + 1 })
    } else {
        None
    }
}

fn moment(day: u32, hour: u32, minute: u32, anchor_time: Option<CivilDateTime>) -> (r: Result<
    MetarTime,
    DecodeError,
>)
    requires
        anchor_time is Some ==> anchor_time->0.can_anchor(),
    ensures
        r == observation_moment(day as int, hour as int, minute as int, anchor_time),
{
    match CivilTime::from_hm(hour, minute) {
        None => Err(DecodeError::InvalidTime),
        Some(t) => {
            let time = MetarTime::DayTime(UtcDayTime(day, t));
            match anchor_time {
                None => Ok(time),
                Some(a) => time.to_date_time(a),
            }
        },
    }
}

/// Matches a header at `at`.
pub fn header_at(text: &[char], at: usize, anchor_time: Option<CivilDateTime>) -> (r: Result<
    Option<(Header, usize)>,
    DecodeError,
>)
    requires
        at <= text.len(),
        anchor_time is Some ==> anchor_time->0.can_anchor(),
    ensures
        header_viewed(r) == header_group(text@, at as int, anchor_time),
        r is Ok ==> advances(r->Ok_0, at, text@.len()),
{
    reveal(header_group);
    let l = match read_layout(text, at) {
        None => {
            return Ok(None);
        },
        Some(l) => l,
    };
    let day = read_digits(text, at + 5, 2);
    let hour = read_digits(text, at + 7, 2);
    let minute = read_digits(text, at + 9, 2);
    let time = match moment(day, hour, minute, anchor_time) {
        Ok(t) => t,
        Err(e) => {
            return Err(e);
        },
    };
    let station = copy_range(text, at, at + 4);
    let header = Header {
        station_id: Some(string_of(station.as_slice())),
        observation_time: Some(time),
        is_corrected: Some(l.corrected),
        is_automated: Some(l.automated),
    };
    Ok(Some((header, l.end - at)))
}

/// Matches a header at the start of `text`.
pub fn handle_header(text: &str, anchor_time: Option<CivilDateTime>) -> (r: Result<
    Option<(Header, usize)>,
    DecodeError,
>)
    requires
        anchor_time is Some ==> anchor_time->0.can_anchor(),
    ensures
        header_viewed(r) == header_group(text@, 0, anchor_time),
        r is Ok ==> advances(r->Ok_0, 0, text@.len()),
{
    let chars = chars_of(text);
    header_at(chars.as_slice(), 0, anchor_time)
}

} // verus!
