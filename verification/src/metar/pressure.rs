//! The pressure group, such as `Q1013` or `A3002`.

use crate::metar::value::{Quantity, Unit, Value};
use crate::number::Number;
use crate::text::{
    advances, char_at, chars_of, decimal, digits_at, ends_at, four_at, has_digits, has_four,
    peek, read_digits,
};
use vstd::prelude::*;

verus! {

/// Pressure group.
#[derive(Clone, Copy, Debug, PartialEq, Eq, Structural)]
pub struct Pressure {
    pub pressure: Option<Quantity>,
}

impl Default for Pressure {
    fn default() -> (r: Pressure)
        ensures
            r.is_empty(),
    {
        Pressure { pressure: None }
    }
}

impl Pressure {
    /// Whether nothing is reported.
    pub open spec fn empty(&self) -> bool {
        self.pressure is None
    }

    #[verifier::when_used_as_spec(empty)]
    pub fn is_empty(&self) -> (r: bool)
        ensures
            r == self.empty(),
    {
        self.pressure.is_none()
    }
}

/// The length of the pressure field at `p`: `////`, four digits or three;
/// zero if none of them stands there.
pub open spec fn pressure_len(s: Seq<char>, p: int) -> int {
    if four_at(s, p, '/', '/', '/', '/') || digits_at(s, p, 4) {
        4
    } else if digits_at(s, p, 3) {
        3
    } else {
        0
    }
}

/// The pressure that `n` digits at `p` give: hectopascals after `Q`,
/// hundredths of an inch of mercury after `A`.
pub open spec fn pressure_value(s: Seq<char>, p: int, n: int, inches: bool) -> Quantity {
    if inches {
        Quantity {
            value: Value::Exact(Number::of_int(decimal(s, p, n as nat)).over(100)),
            units: Unit::InchOfMercury,
        }
    } else {
        Quantity::exact(decimal(s, p, n as nat), Unit::HectoPascal)
    }
}

/// The pressure group at `at`: `A` or `Q`, then three or four digits or
/// `////`, and a blank.
#[verifier::opaque]
pub open spec fn pressure_group(s: Seq<char>, at: int) -> Option<(Pressure, usize)> {
    let n = pressure_len(s, at + 1);
    let inches = char_at(s, at) == 'A';
    if !(inches || char_at(s, at) == 'Q') || n == 0 || !ends_at(s, at + 1 + n) {
        None
    } else {
        Some(
            (
                Pressure {
                    pressure: if char_at(s, at + 1) == '/' {
                        None
                    } else {
                        Some(pressure_value(s, at + 1, n, inches))
                    },
                },
                (n + 2) as usize,
            ),
        )
    }
}

/// Matches a pressure group at `at`.
pub fn pressure_at(text: &[char], at: usize) -> (r: Option<(Pressure, usize)>)
    requires
        at <= text.len(),
    ensures
        r == pressure_group(text@, at as int),
        advances(r, at, text@.len()),
{
    reveal(pressure_group);
    let unit = peek(text, at, 0);
    if unit != 'A' && unit != 'Q' {
        return None;
    }
    let p = at + 1;
    let n: usize = if has_four(text, p, '/', '/', '/', '/') || has_digits(text, p, 4) {
        4
    } else if has_digits(text, p, 3) {
        3
    } else {
        0
    };
    if n == 0 || peek(text, p, n) != ' ' {
        return None;
    }
    let pressure = if peek(text, p, 0) == '/' {
        None
    } else {
        let v = read_digits(text, p, n);
        if unit == 'A' {
            Some(
                Quantity {
                    value: Value::Exact(Number::from_integer(v as i64).div(100)),
                    units: Unit::InchOfMercury,
                },
            )
        } else {
            Some(
                Quantity {
                    value: Value::Exact(Number::from_integer(v as i64)),
                    units: Unit::HectoPascal,
                },
            )
        }
    };
    Some((Pressure { pressure }, n + 2))
}

/// Matches a pressure group at the start of `text`.
pub fn handle_pressure(text: &str) -> (r: Option<(Pressure, usize)>)
    ensures
        r == pressure_group(text@, 0),
        advances(r, 0, text@.len()),
{
    let chars = chars_of(text);
    pressure_at(chars.as_slice(), 0)
}

} // verus!
