//! The sea group, such as `W15/S3` or `W12/H75`.

use crate::error::DecodeError;
use crate::metar::temperature::{degrees_len, degrees_value, read_degrees, read_degrees_len};
use crate::metar::value::{token_result, Quantity, Unit, Value};
use crate::number::Number;
use crate::text::{
    advances, char_at, chars_of, decimal, digit, digit_value, digits_at, ends_at, has_digits,
    has_three, is_digit, peek, read_digits, three_at, };
use vstd::prelude::*;

verus! {

/// Sea state from WMO Code Table 3700.
#[derive(Clone, Copy, Debug, PartialEq, Eq, Structural)]
pub enum SeaState {
    Glassy,
    Rippled,
    Smooth,
    Slight,
    Moderate,
    Rough,
    VeryRough,
    High,
    VeryHigh,
    Phenomenal,
}

impl SeaState {
    /// The sea state with code figure `n`.
    pub open spec fn of_code(n: int) -> Option<SeaState> {
        if n == 0 {
            Some(SeaState::Glassy)
        } else if n == 1 {
            Some(SeaState::Rippled)
        } else if n == 2 {
            Some(SeaState::Smooth)
        } else if n == 3 {
            Some(SeaState::Slight)
        } else if n == 4 {
            Some(SeaState::Moderate)
        } else if n == 5 {
            Some(SeaState::Rough)
        } else if n == 6 {
            Some(SeaState::VeryRough)
        } else if n == 7 {
            Some(SeaState::High)
        } else if n == 8 {
            Some(SeaState::VeryHigh)
        } else if n == 9 {
            Some(SeaState::Phenomenal)
        } else {
            None
        }
    }

    /// The sea state that a token of one digit names.
    pub open spec fn of_token(s: Seq<char>) -> Option<SeaState> {
        if s.len() == 1 && is_digit(s[0]) {
            SeaState::of_code(digit_value(s[0]))
        } else {
            None
        }
    }

    pub fn from_char(c: char) -> (r: Option<SeaState>)
        ensures
            r == (if is_digit(c) {
                SeaState::of_code(digit_value(c))
            } else {
                None
            }),
    {
        match c {
            '0' => Some(SeaState::Glassy),
            '1' => Some(SeaState::Rippled),
            '2' => Some(SeaState::Smooth),
            '3' => Some(SeaState::Slight),
            '4' => Some(SeaState::Moderate),
            '5' => Some(SeaState::Rough),
            '6' => Some(SeaState::VeryRough),
            '7' => Some(SeaState::High),
            '8' => Some(SeaState::VeryHigh),
            '9' => Some(SeaState::Phenomenal),
            _ => None,
        }
    }

    pub fn from_chars(token: &[char]) -> (r: Result<SeaState, DecodeError>)
        ensures
            r == token_result(SeaState::of_token(token@), DecodeError::InvalidSeaState),
    {
        if token.len() == 1 {
            match SeaState::from_char(token[0]) {
                Some(state) => Ok(state),
                None => Err(DecodeError::InvalidSeaState),
            }
        } else {
            Err(DecodeError::InvalidSeaState)
        }
    }

    /// Reads a code figure `0` to `9`.
    pub fn from_str(s: &str) -> (r: Result<SeaState, DecodeError>)
        ensures
            r == token_result(SeaState::of_token(s@), DecodeError::InvalidSeaState),
    {
        let token = chars_of(s);
        SeaState::from_chars(token.as_slice())
    }
}

/// Sea groups.
#[derive(Clone, Copy, Debug, PartialEq, Eq, Structural)]
pub struct Sea {
    pub sea_temperature: Option<Quantity>,
    pub sea_state: Option<SeaState>,
    pub wave_height: Option<Quantity>,
}

impl Default for Sea {
    fn default() -> (r: Sea)
        ensures
            r.is_empty(),
    {
        Sea { sea_temperature: None, sea_state: None, wave_height: None }
    }
}

impl Sea {
    /// Whether nothing is reported.
    pub open spec fn empty(&self) -> bool {
        self.sea_temperature is None && self.sea_state is None && self.wave_height is None
    }

    #[verifier::when_used_as_spec(empty)]
    pub fn is_empty(&self) -> (r: bool)
        ensures
            r == self.empty(),
    {
        self.sea_temperature.is_none() && self.sea_state.is_none() && self.wave_height.is_none()
    }
}

/// The length of the state part at `p`: `S` and a digit or `/`; zero if no
/// `S` stands there, and -1 if something else follows the `S`.
pub open spec fn state_len(s: Seq<char>, p: int) -> int {
    if char_at(s, p) != 'S' {
        0
    } else if is_digit(char_at(s, p + 1)) || char_at(s, p + 1) == '/' {
        2
    } else {
        -1
    }
}

/// The length of the wave part at `p`: `H` and one to three digits or `///`;
/// zero if no `H` stands there, and -1 if something else follows the `H`.
pub open spec fn wave_len(s: Seq<char>, p: int) -> int {
    if char_at(s, p) != 'H' {
        0
    } else if three_at(s, p + 1, '/', '/', '/') || digits_at(s, p + 1, 3) {
        4
    } else if digits_at(s, p + 1, 2) {
        3
    } else if digits_at(s, p + 1, 1) {
        2
    } else {
        -1
    }
}

/// The sea group at `at`: `W`, the water temperature, `/`, optionally `S` and
/// the state of the sea, optionally `H` and the height of the waves in
/// decimetres, and a blank. The height is given in metres.
#[verifier::opaque]
pub open spec fn sea_group(s: Seq<char>, at: int) -> Option<(Sea, usize)> {
    let t = degrees_len(s, at + 1);
    let q = at + t + 2;
    let st = state_len(s, q);
    let h = q + st;
    let w = wave_len(s, h);
    if char_at(s, at) != 'W' || t == 0 || char_at(s, at + 1 + t) != '/' {
        None
    } else if st < 0 || w < 0 || !ends_at(s, h + w) {
        None
    } else {
        Some(
            (
                Sea {
                    sea_temperature: degrees_value(s, at + 1, t),
                    sea_state: if st == 2 && is_digit(char_at(s, q + 1)) {
                        SeaState::of_code(digit_value(char_at(s, q + 1)))
                    } else {
                        None
                    },
                    wave_height: if w > 0 && char_at(s, h + 1) != '/' {
                        Some(
                            Quantity {
                                value: Value::Exact(
                                    Number::of_int(decimal(s, h + 1, (w - 1) as nat)).over(10),
                                ),
                                units: Unit::Metre,
                            },
                        )
                    } else {
                        None
                    },
                },
                (h + w + 1 - at) as usize,
            ),
        )
    }
}

/// Matches a sea group at `at`.
pub fn sea_at(text: &[char], at: usize) -> (r: Option<(Sea, usize)>)
    requires
        at <= text.len(),
    ensures
        r == sea_group(text@, at as int),
        advances(r, at, text@.len()),
{
    reveal(sea_group);
    if peek(text, at, 0) != 'W' {
        return None;
    }
    let t = read_degrees_len(text, at + 1);
    if t == 0 || peek(text, at + 1, t) != '/' {
        return None;
    }
    let q = at + t + 2;
    let mut h = q;
    let mut sea_state: Option<SeaState> = None;
    if peek(text, q, 0) == 'S' {
        let c = peek(text, q, 1);
        if digit(c) {
            sea_state = SeaState::from_char(c);
        } else if c != '/' {
            return None;
        }
        h = q + 2;
    }
    let mut w: usize = 0;
    if peek(text, h, 0) == 'H' {
        if has_three(text, h + 1, '/', '/', '/') || has_digits(text, h + 1, 3) {
            w = 4;
        } else if has_digits(text, h + 1, 2) {
            w = 3;
        } else if has_digits(text, h + 1, 1) {
            w = 2;
        } else {
            return None;
        }
    }
    if peek(text, h, w) != ' ' {
        return None;
    }
    let wave_height = if w > 0 && peek(text, h, 1) != '/' {
        let v = read_digits(text, h + 1, w - 1);
        Some(
            Quantity {
                value: Value::Exact(Number::from_integer(v as i64).div(10)),
                units: Unit::Metre,
            },
        )
    } else {
        None
    };
    let sea = Sea { sea_temperature: read_degrees(text, at + 1, t), sea_state, wave_height };
    Some((sea, h + w + 1 - at))
}

/// Matches a sea group at the start of `text`.
pub fn handle_sea(text: &str) -> (r: Option<(Sea, usize)>)
    ensures
        r == sea_group(text@, 0),
        advances(r, 0, text@.len()),
{
    let chars = chars_of(text);
    sea_at(chars.as_slice(), 0)
}

} // verus!
