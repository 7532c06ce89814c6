//! The temperature group, such as `22/18`, `M05/M10` or `02///`.

use crate::metar::value::{Quantity, Unit, Value};
use crate::number::Number;
use crate::text::{
    advances, char_at, chars_of, decimal, digits_at, ends_at, has_digits, has_two, peek,
    read_digits, two_at,
};
use vstd::prelude::*;

verus! {

/// Temperature groups.
#[derive(Clone, Copy, Debug, PartialEq, Eq, Structural)]
pub struct Temperature {
    pub temperature: Option<Quantity>,
    pub dew_point: Option<Quantity>,
}

impl Default for Temperature {
    fn default() -> (r: Temperature)
        ensures
            r.is_empty(),
    {
        Temperature { temperature: None, dew_point: None }
    }
}

impl Temperature {
    /// Whether nothing is reported.
    pub open spec fn empty(&self) -> bool {
        self.temperature is None && self.dew_point is None
    }

    #[verifier::when_used_as_spec(empty)]
    pub fn is_empty(&self) -> (r: bool)
        ensures
            r == self.empty(),
    {
        self.temperature.is_none() && self.dew_point.is_none()
    }
}

/// The length of the temperature field at `p`: `//`, `XX`, or one or two
/// digits with or without `M` in front; zero if none of them stands there.
pub open spec fn degrees_len(s: Seq<char>, p: int) -> int {
    let m: int = if char_at(s, p) == 'M' {
        1
    } else {
        0
    };
    if two_at(s, p, '/', '/') || two_at(s, p, 'X', 'X') {
        2
    } else if digits_at(s, p + m, 2) {
        m + 2
    } else if digits_at(s, p + m, 1) {
        m + 1
    } else {
        0
    }
}

/// The temperature that the field of length `n` at `p` gives: none for `//`
/// and `XX`, below zero after `M`.
pub open spec fn degrees_value(s: Seq<char>, p: int, n: int) -> Option<Quantity> {
    if two_at(s, p, '/', '/') || two_at(s, p, 'X', 'X') {
        None
    } else if char_at(s, p) == 'M' {
        Some(
            Quantity {
                value: Value::Exact(Number::of_int(-decimal(s, p + 1, (n - 1) as nat))),
                units: Unit::DegreeCelsius,
            },
        )
    } else {
        Some(Quantity::exact(decimal(s, p, n as nat), Unit::DegreeCelsius))
    }
}

/// The temperature group at `at`: the air temperature, `/`, optionally the
/// dew point, and a blank.
#[verifier::opaque]
pub open spec fn temperature_group(s: Seq<char>, at: int) -> Option<(Temperature, usize)> {
    let t = degrees_len(s, at);
    let q = at + t + 1;
    let d = degrees_len(s, q);
    if t == 0 || char_at(s, at + t) != '/' || !ends_at(s, q + d) {
        None
    } else {
        Some(
            (
                Temperature {
                    temperature: degrees_value(s, at, t),
                    dew_point: if d > 0 {
                        degrees_value(s, q, d)
                    } else {
                        None
                    },
                },
                (t + d + 2) as usize,
            ),
        )
    }
}

pub(crate) fn read_degrees_len(text: &[char], p: usize) -> (n: usize)
    ensures
        n == degrees_len(text@, p as int),
        n > 0 ==> p + n <= text.len(),
{
    let m: usize = if peek(text, p, 0) == 'M' {
        1
    } else {
        0
    };
    if has_two(text, p, '/', '/') || has_two(text, p, 'X', 'X') {
        2
    } else if has_digits(text, p + m, 2) {
        m + 2
    } else if has_digits(text, p + m, 1) {
        m + 1
    } else {
        0
    }
}

pub(crate) fn read_degrees(text: &[char], p: usize, n: usize) -> (r: Option<Quantity>)
    requires
        n > 0,
        n == degrees_len(text@, p as int),
    ensures
        r == degrees_value(text@, p as int, n as int),
{
    if has_two(text, p, '/', '/') || has_two(text, p, 'X', 'X') {
        None
    } else if peek(text, p, 0) == 'M' {
        let v = read_digits(text, p + 1, n - 1);
        Some(
            Quantity {
                value: Value::Exact(Number::from_integer(-(v as i64))),
                units: Unit::DegreeCelsius,
            },
        )
    } else {
        let v = read_digits(text, p, n);
        Some(
            Quantity {
                value: Value::Exact(Number::from_integer(v as i64)),
                units: Unit::DegreeCelsius,
            },
        )
    }
}

/// Matches a temperature group at `at`.
pub fn temperature_at(text: &[char], at: usize) -> (r: Option<(Temperature, usize)>)
    requires
        at <= text.len(),
    ensures
        r == temperature_group(text@, at as int),
        advances(r, at, text@.len()),
{
    reveal(temperature_group);
    let t = read_degrees_len(text, at);
    if t == 0 || peek(text, at, t) != '/' {
        return None;
    }
    let q = at + t + 1;
    let d = read_degrees_len(text, q);
    if peek(text, q, d) != ' ' {
        return None;
    }
    let dew_point = if d > 0 {
        read_degrees(text, q, d)
    } else {
        None
    };
    Some((Temperature { temperature: read_degrees(text, at, t), dew_point }, t + d + 2))
}

/// Matches a temperature group at the start of `text`.
pub fn handle_temperature(text: &str) -> (r: Option<(Temperature, usize)>)
    ensures
        r == temperature_group(text@, 0),
        advances(r, 0, text@.len()),
{
    let chars = chars_of(text);
    temperature_at(chars.as_slice(), 0)
}

} // verus!
