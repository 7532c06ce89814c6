//! The runway visual range group, such as `R27L/0600FT/D` or `R09/P1500VM2000U`.

use crate::error::DecodeError;
use crate::metar::value::{token_result, Quantity, Unit, Value, ValueInRange};
use crate::metar::wind_shear::{read_runway_len, runway_len};
use crate::number::Number;
use crate::text::{
    advances, char_at, chars_of, copy_range, decimal, digits_at, ends_at, has_digits, has_two,
    peek, read_digits, string_of, two_at, viewed, };
use vstd::prelude::*;

verus! {

/// Runway visual range (RVR) trend.
#[derive(Clone, Copy, Debug, PartialEq, Eq, Structural)]
pub enum RunwayVisualRangeTrend {
    Increasing,
    Decreasing,
    NoChange,
}

impl RunwayVisualRangeTrend {
    /// The trend that the letter `c` names.
    pub open spec fn of_char(c: char) -> Option<RunwayVisualRangeTrend> {
        if c == 'U' {
            Some(RunwayVisualRangeTrend::Increasing)
        } else if c == 'D' {
            Some(RunwayVisualRangeTrend::Decreasing)
        } else if c == 'N' {
            Some(RunwayVisualRangeTrend::NoChange)
        } else {
            None
        }
    }

    /// The trend that `U`, `D` or `N` names.
    pub open spec fn of_token(s: Seq<char>) -> Option<RunwayVisualRangeTrend> {
        if s.len() == 1 {
            RunwayVisualRangeTrend::of_char(s[0])
        } else {
            None
        }
    }

    pub fn from_char(c: char) -> (r: Option<RunwayVisualRangeTrend>)
        ensures
            r == RunwayVisualRangeTrend::of_char(c),
    {
        if c == 'U' {
            Some(RunwayVisualRangeTrend::Increasing)
        } else if c == 'D' {
            Some(RunwayVisualRangeTrend::Decreasing)
        } else if c == 'N' {
            Some(RunwayVisualRangeTrend::NoChange)
        } else {
            None
        }
    }

    pub fn from_chars(token: &[char]) -> (r: Result<RunwayVisualRangeTrend, DecodeError>)
        ensures
            r == token_result(
                RunwayVisualRangeTrend::of_token(token@),
                DecodeError::InvalidRunwayVisualRangeTrend,
            ),
    {
        if token.len() == 1 {
            match RunwayVisualRangeTrend::from_char(token[0]) {
                Some(t) => Ok(t),
                None => Err(DecodeError::InvalidRunwayVisualRangeTrend),
            }
        } else {
            Err(DecodeError::InvalidRunwayVisualRangeTrend)
        }
    }

    /// Reads `U`, `D` or `N`.
    pub fn from_str(s: &str) -> (r: Result<RunwayVisualRangeTrend, DecodeError>)
        ensures
            r == token_result(
                RunwayVisualRangeTrend::of_token(s@),
                DecodeError::InvalidRunwayVisualRangeTrend,
            ),
    {
        let token = chars_of(s);
        RunwayVisualRangeTrend::from_chars(token.as_slice())
    }
}

/// Runway visual range (RVR).
#[derive(Clone, Debug, PartialEq, Eq)]
pub struct RunwayVisualRange {
    pub runway: String,
    pub visual_range: Quantity,
    pub trend: Option<RunwayVisualRangeTrend>,
}

/// What a [`RunwayVisualRange`] holds.
pub struct RunwayVisualRangeView {
    pub runway: Seq<char>,
    pub visual_range: Quantity,
    pub trend: Option<RunwayVisualRangeTrend>,
}

impl View for RunwayVisualRange {
    type V = RunwayVisualRangeView;

    open spec fn view(&self) -> RunwayVisualRangeView {
        RunwayVisualRangeView {
            runway: self.runway@,
            visual_range: self.visual_range,
            trend: self.trend,
        }
    }
}

/// The length of the range at `p`: four digits, with or without `M` or `P`
/// in front; zero if no such range stands there.
pub open spec fn range_len(s: Seq<char>, p: int) -> int {
    if (char_at(s, p) == 'M' || char_at(s, p) == 'P') && digits_at(s, p + 1, 4) {
        5
    } else if digits_at(s, p, 4) {
        4
    } else {
        0
    }
}

/// The range at `p`: less than the number after `M`, more than the number
/// after `P`, else the number.
pub open spec fn range_value(s: Seq<char>, p: int) -> ValueInRange {
    if char_at(s, p) == 'M' {
        ValueInRange::Below(Number::of_int(decimal(s, p + 1, 4)))
    } else if char_at(s, p) == 'P' {
        ValueInRange::Above(Number::of_int(decimal(s, p + 1, 4)))
    } else {
        ValueInRange::Exact(Number::of_int(decimal(s, p, 4)))
    }
}

/// The value of one end of a range, alone.
pub open spec fn single(v: ValueInRange) -> Value {
    match v {
        ValueInRange::Above(x) => Value::Above(x),
        ValueInRange::Below(x) => Value::Below(x),
        ValueInRange::Exact(x) => Value::Exact(x),
    }
}

/// Where the fields of a runway visual range group stand.
pub struct RangeLayout {
    /// The length of the runway designator, which starts after the `R`.
    pub runway: usize,
    /// Where the range starts.
    pub range: usize,
    /// Where the upper end of a varying range starts, if there is one.
    pub upper: Option<usize>,
    /// Whether the unit `FT` is given.
    pub feet: bool,
    /// Where the letter of the trend stands, if there is one.
    pub trend: Option<usize>,
    /// The first position after the group and its blank.
    pub end: usize,
}

/// The layout of the runway visual range group at `at`.
///
/// `R`, the runway as two digits and optionally a letter, `/`, the range as
/// four digits with or without `M` or `P`, optionally `V` and a second range,
/// optionally `FT`, optionally `/`, optionally the trend `U`, `D` or `N`, and a
/// blank.
pub open spec fn range_layout(s: Seq<char>, at: int) -> Option<RangeLayout> {
    let n = runway_len(s, at + 1);
    let q = at + n + 2;
    let v = q + range_len(s, q);
    let varying = char_at(s, v) == 'V';
    let u = if varying {
        v + 1 + range_len(s, v + 1)
    } else {
        v
    };
    let feet = two_at(s, u, 'F', 'T');
    let f = if feet {
        u + 2
    } else {
        u
    };
    let t = if char_at(s, f) == '/' {
        f + 1
    } else {
        f
    };
    let trending = RunwayVisualRangeTrend::of_char(char_at(s, t)) is Some;
    let e = if trending {
        t + 1
    } else {
        t
    };
    if char_at(s, at) != 'R' || n == 0 || char_at(s, at + 1 + n) != '/' {
        None
    } else if range_len(s, q) == 0 || (varying && range_len(s, v + 1) == 0) || !ends_at(s, e) {
        None
    } else {
        Some(
            RangeLayout {
                runway: n as usize,
                range: q as usize,
                upper: if varying {
                    Some((v + 1) as usize)
                } else {
                    None
                },
                feet,
                trend: if trending {
                    Some(t as usize)
                } else {
                    None
                },
                end: (e + 1) as usize,
            },
        )
    }
}

/// What a runway visual range group at `at` laid out as `l` reports. The
/// range is in metres unless `FT` is given.
pub open spec fn range_of(s: Seq<char>, at: int, l: RangeLayout) -> RunwayVisualRangeView {
    RunwayVisualRangeView {
        runway: s.subrange(at + 1, at + 1 + l.runway),
        visual_range: Quantity {
            value: match l.upper {
                Some(p) => Value::Range(range_value(s, l.range as int), range_value(s, p as int)),
                None => single(range_value(s, l.range as int)),
            },
            units: if l.feet {
                Unit::Foot
            } else {
                Unit::Metre
            },
        },
        trend: match l.trend {
            Some(p) => RunwayVisualRangeTrend::of_char(char_at(s, p as int)),
            None => None,
        },
    }
}

/// The runway visual range group at `at`: what it reports and the characters
/// it takes.
#[verifier::opaque]
pub open spec fn runway_visual_range_group(s: Seq<char>, at: int) -> Option<
    (RunwayVisualRangeView, usize),
> {
    match range_layout(s, at) {
        Some(l) => Some((range_of(s, at, l), (l.end - at) as usize)),
        None => None,
    }
}

fn read_range_len(text: &[char], p: usize) -> (n: usize)
    ensures
        n == range_len(text@, p as int),
        n > 0 ==> p + n <= text.len(),
{
    let c = peek(text, p, 0);
    if (c == 'M' || c == 'P') && has_digits(text, p + 1, 4) {
        5
    } else if has_digits(text, p, 4) {
        4
    } else {
        0
    }
}

fn read_range(text: &[char], p: usize) -> (v: ValueInRange)
    requires
        range_len(text@, p as int) > 0,
    ensures
        v == range_value(text@, p as int),
{
    let c = peek(text, p, 0);
    if c == 'M' {
        ValueInRange::Below(Number::from_integer(read_digits(text, p + 1, 4) as i64))
    } else if c == 'P' {
        ValueInRange::Above(Number::from_integer(read_digits(text, p + 1, 4) as i64))
    } else {
        ValueInRange::Exact(Number::from_integer(read_digits(text, p, 4) as i64))
    }
}

fn read_layout(text: &[char], at: usize) -> (r: Option<RangeLayout>)
    requires
        at <= text.len(),
    ensures
        r == range_layout(text@, at as int),
        r is Some ==> at < r->0.end <= text.len() && at + 1 + r->0.runway <= text.len(),
{
    if peek(text, at, 0) != 'R' {
        return None;
    }
    let n = read_runway_len(text, at + 1);
    if n == 0 || peek(text, at + 1, n) != '/' {
        return None;
    }
    let q = at + n + 2;
    let first = read_range_len(text, q);
    if first == 0 {
        return None;
    }
    let v = q + first;
    let varying = peek(text, v, 0) == 'V';
    let mut u = v;
    if varying {
        let second = read_range_len(text, v + 1);
        if second == 0 {
            return None;
        }
        u = v + 1 + second;
    }
    let feet = has_two(text, u, 'F', 'T');
    let f = if feet {
        u + 2
    } else {
        u
    };
    let t = if peek(text, f, 0) == '/' {
        f + 1
    } else {
        f
    };
    let trending = RunwayVisualRangeTrend::from_char(peek(text, t, 0)).is_some();
    let e = if trending {
        t + 1
    } else {
        t
    };
    if peek(text, e, 0) != ' ' {
        return None;
    }
    Some(
        RangeLayout {
            runway: n,
            range: q,
            upper: if varying {
                Some(v + 1)
            } else {
                None
            },
            feet,
            trend: if trending {
                Some(t)
            } else {
                None
            },
            end: e + 1,
        },
    )
}

/// Matches a runway visual range group at `at`.
pub fn runway_visual_range_at(text: &[char], at: usize) -> (r: Option<(RunwayVisualRange, usize)>)
    requires
        at <= text.len(),
    ensures
        viewed(r) == runway_visual_range_group(text@, at as int),
        advances(r, at, text@.len()),
{
    reveal(runway_visual_range_group);
    match read_layout(text, at) {
        None => None,
        Some(l) => {
            let runway = copy_range(text, at + 1, at + 1 + l.runway);
            let first = read_range(text, l.range);
            let value = match l.upper {
                Some(p) => Value::Range(first, read_range(text, p)),
                None => match first {
                    ValueInRange::Above(x) => Value::Above(x),
                    ValueInRange::Below(x) => Value::Below(x),
                    ValueInRange::Exact(x) => Value::Exact(x),
                },
            };
            let units = if l.feet {
                Unit::Foot
            } else {
                Unit::Metre
            };
            let trend = match l.trend {
                Some(p) => RunwayVisualRangeTrend::from_char(peek(text, p, 0)),
                None => None,
            };
            let rvr = RunwayVisualRange {
                runway: string_of(runway.as_slice()),
                visual_range: Quantity { value, units },
                trend,
            };
            Some((rvr, l.end - at))
        },
    }
}

/// Matches a runway visual range group at the start of `text`.
pub fn handle_runway_visual_range(text: &str) -> (r: Option<(RunwayVisualRange, usize)>)
    ensures
        viewed(r) == runway_visual_range_group(text@, 0),
        advances(r, 0, text@.len()),
{
    let chars = chars_of(text);
    runway_visual_range_at(chars.as_slice(), 0)
}

} // verus!
