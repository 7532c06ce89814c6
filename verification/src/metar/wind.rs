//! The surface wind group, such as `18010KT`, `VRB03G15MPS` or
//! `24015G27KT 210V270`.

use crate::metar::value::{Quantity, Unit, Value, ValueInRange};
use crate::number::Number;
use crate::text::{
    advances, char_at, chars_of, decimal, digits_at, ends_at, has_digits, has_three, has_two,
    peek, read_digits, three_at, two_at,
};
use vstd::prelude::*;

verus! {

/// Surface wind groups.
#[derive(Clone, Copy, Debug, PartialEq, Eq, Structural)]
pub struct Wind {
    /// Wind direction. Reported by the direction from which the wind originates.
    pub wind_from_direction: Option<Quantity>,
    /// Range of wind directions if they vary significantly.
    /// Reported by the direction from which the wind originates.
    pub wind_from_direction_range: Option<Quantity>,
    pub wind_speed: Option<Quantity>,
    pub wind_gust: Option<Quantity>,
}

impl Default for Wind {
    fn default() -> (r: Wind)
        ensures
            r.is_empty(),
    {
        Wind {
            wind_from_direction: None,
            wind_from_direction_range: None,
            wind_speed: None,
            wind_gust: None,
        }
    }
}

impl Wind {
    /// Whether nothing is reported.
    pub open spec fn empty(&self) -> bool {
        &&& self.wind_from_direction is None
        &&& self.wind_from_direction_range is None
        &&& self.wind_speed is None
        &&& self.wind_gust is None
    }

    #[verifier::when_used_as_spec(empty)]
    pub fn is_empty(&self) -> (r: bool)
        ensures
            r == self.empty(),
    {
        self.wind_from_direction.is_none() && self.wind_from_direction_range.is_none()
            && self.wind_speed.is_none() && self.wind_gust.is_none()
    }
}

/// The exact whole number `n`.
pub open spec fn exact(n: int) -> Value {
    Value::Exact(Number::of_int(n))
}

/// The length of the speed field at `p`: `//`, two digits, or `P` and two
/// digits; zero if none of them stands there.
pub open spec fn speed_len(s: Seq<char>, p: int) -> int {
    if two_at(s, p, '/', '/') {
        2
    } else if char_at(s, p) == 'P' && digits_at(s, p + 1, 2) {
        3
    } else if digits_at(s, p, 2) {
        2
    } else {
        0
    }
}

/// The speed that the field at `p` gives: none for `//`, more than the
/// number after `P`, else the number.
pub open spec fn speed_value(s: Seq<char>, p: int) -> Option<Value> {
    if two_at(s, p, '/', '/') {
        None
    } else if char_at(s, p) == 'P' {
        Some(Value::Above(Number::of_int(decimal(s, p + 1, 2))))
    } else {
        Some(exact(decimal(s, p, 2)))
    }
}

/// The direction that the three characters at `p` give: none for `///` and
/// for calm, variable for `VRB`, else the number.
pub open spec fn direction_value(s: Seq<char>, p: int) -> Option<Value> {
    if three_at(s, p, '/', '/', '/') {
        None
    } else if three_at(s, p, '0', '0', '0') && two_at(s, p + 3, '0', '0') {
        None
    } else if three_at(s, p, 'V', 'R', 'B') {
        Some(Value::Variable)
    } else {
        Some(exact(decimal(s, p, 3)))
    }
}

/// Whether the arc of a varying direction, ` dddVddd` and a blank, stands at `p`.
pub open spec fn arc_at(s: Seq<char>, p: int) -> bool {
    &&& char_at(s, p) == ' '
    &&& digits_at(s, p + 1, 3)
    &&& char_at(s, p + 4) == 'V'
    &&& digits_at(s, p + 5, 3)
    &&& ends_at(s, p + 8)
}

/// Where the fields of a wind group stand.
pub struct WindLayout {
    /// Where the direction starts.
    pub direction: usize,
    /// Where the gust starts, if there is one.
    pub gust: Option<usize>,
    /// Where the unit starts.
    pub units: usize,
    /// Whether the unit is `KT`.
    pub knots: bool,
    /// Where the arc starts, if there is one.
    pub arc: Option<usize>,
    /// The first position after the group and its blank.
    pub end: usize,
}

/// The layout of the wind group at `at`.
///
/// An optional `E`; the direction as three digits, `VRB` or `///`; the speed
/// as two digits, `P` and two digits, or `//`; optionally `G` and the gust in
/// the same form; the unit `KT` or `MPS`; optionally a blank and the arc
/// `dddVddd`; a blank.
pub open spec fn wind_layout(s: Seq<char>, at: int) -> Option<WindLayout> {
    let d = if char_at(s, at) == 'E' {
        at + 1
    } else {
        at
    };
    let v = d + 3;
    let g = v + speed_len(s, v);
    let gusty = char_at(s, g) == 'G';
    let u = if gusty {
        g + 1 + speed_len(s, g + 1)
    } else {
        g
    };
    let knots = two_at(s, u, 'K', 'T');
    let e = if knots {
        u + 2
    } else {
        u + 3
    };
    if !(digits_at(s, d, 3) || three_at(s, d, 'V', 'R', 'B') || three_at(s, d, '/', '/', '/')) {
        None
    } else if speed_len(s, v) == 0 || (gusty && speed_len(s, g + 1) == 0) {
        None
    } else if !(knots || three_at(s, u, 'M', 'P', 'S')) {
        None
    } else if !(arc_at(s, e) || ends_at(s, e)) {
        None
    } else {
        Some(
            WindLayout {
                direction: d as usize,
                gust: if gusty {
                    Some((g + 1) as usize)
                } else {
                    None
                },
                units: u as usize,
                knots,
                arc: if arc_at(s, e) {
                    Some((e + 1) as usize)
                } else {
                    None
                },
                end: if arc_at(s, e) {
                    (e + 9) as usize
                } else {
                    (e + 1) as usize
                },
            },
        )
    }
}

/// The arc of directions whose first number stands at `p`.
pub open spec fn arc_value(s: Seq<char>, p: int) -> Quantity {
    Quantity {
        value: Value::Range(
            ValueInRange::Exact(Number::of_int(decimal(s, p, 3))),
            ValueInRange::Exact(Number::of_int(decimal(s, p + 4, 3))),
        ),
        units: Unit::DegreeTrue,
    }
}

/// What a wind group laid out as `l` reports. `///` and `//` leave their
/// field unreported, and so does the direction `000` with speed `00`.
pub open spec fn wind_of(s: Seq<char>, l: WindLayout) -> Wind {
    let units = if l.knots {
        Unit::Knot
    } else {
        Unit::MetrePerSecond
    };
    Wind {
        wind_from_direction: Quantity::of(direction_value(s, l.direction as int), Unit::DegreeTrue),
        wind_from_direction_range: match l.arc {
            Some(p) => Some(arc_value(s, p as int)),
            None => None,
        },
        wind_speed: Quantity::of(speed_value(s, l.direction + 3), units),
        wind_gust: match l.gust {
            Some(p) => Quantity::of(speed_value(s, p as int), units),
            None => None,
        },
    }
}

/// The wind group at `at`: what it reports and the characters it takes.
#[verifier::opaque]
pub open spec fn wind_group(s: Seq<char>, at: int) -> Option<(Wind, usize)> {
    match wind_layout(s, at) {
        Some(l) => Some((wind_of(s, l), (l.end - at) as usize)),
        None => None,
    }
}

/// The value `Exact(n)`.
pub(crate) fn exact_value(n: u32) -> (v: Value)
    ensures
        v == exact(n as int),
        v.wf(),
{
    Value::Exact(Number::from_integer(n as i64))
}

fn read_speed_len(text: &[char], p: usize) -> (n: usize)
    ensures
        n == speed_len(text@, p as int),
        n > 0 ==> p + n <= text.len(),
{
    if has_two(text, p, '/', '/') {
        2
    } else if peek(text, p, 0) == 'P' && has_digits(text, p + 1, 2) {
        3
    } else if has_digits(text, p, 2) {
        2
    } else {
        0
    }
}

fn read_speed(text: &[char], p: usize) -> (v: Option<Value>)
    requires
        speed_len(text@, p as int) > 0,
    ensures
        v == speed_value(text@, p as int),
{
    if has_two(text, p, '/', '/') {
        None
    } else if peek(text, p, 0) == 'P' {
        Some(Value::Above(Number::from_integer(read_digits(text, p + 1, 2) as i64)))
    } else {
        Some(exact_value(read_digits(text, p, 2)))
    }
}

fn read_direction(text: &[char], p: usize) -> (v: Option<Value>)
    requires
        digits_at(text@, p as int, 3) || three_at(text@, p as int, 'V', 'R', 'B') || three_at(
            text@,
            p as int,
            '/',
            '/',
            '/',
        ),
    ensures
        v == direction_value(text@, p as int),
{
    if has_three(text, p, '/', '/', '/') {
        None
    } else if has_three(text, p, '0', '0', '0') && has_two(text, p + 3, '0', '0') {
        None
    } else if has_three(text, p, 'V', 'R', 'B') {
        Some(Value::Variable)
    } else {
        Some(exact_value(read_digits(text, p, 3)))
    }
}

fn read_layout(text: &[char], at: usize) -> (r: Option<WindLayout>)
    requires
        at <= text.len(),
    ensures
        r == wind_layout(text@, at as int),
        r is Some ==> at < r->0.end <= text.len(),
{
    let d = if peek(text, at, 0) == 'E' {
        at + 1
    } else {
        at
    };
    if !(has_digits(text, d, 3) || has_three(text, d, 'V', 'R', 'B') || has_three(
        text,
        d,
        '/',
        '/',
        '/',
    )) {
        return None;
    }
    let v = d + 3;
    let speed = read_speed_len(text, v);
    if speed == 0 {
        return None;
    }
    let g = v + speed;
    let gusty = peek(text, g, 0) == 'G';
    let mut u = g;
    if gusty {
        let gust = read_speed_len(text, g + 1);
        if gust == 0 {
            return None;
        }
        u = g + 1 + gust;
    }
    let knots = has_two(text, u, 'K', 'T');
    if !(knots || has_three(text, u, 'M', 'P', 'S')) {
        return None;
    }
    let e = if knots {
        u + 2
    } else {
        u + 3
    };
    let arc = peek(text, e, 0) == ' ' && has_digits(text, e + 1, 3) && peek(text, e, 4) == 'V'
        && has_digits(text, e + 5, 3) && peek(text, e, 8) == ' ';
    if !arc && peek(text, e, 0) != ' ' {
        return None;
    }
    Some(
        WindLayout {
            direction: d,
            gust: if gusty {
                Some(g + 1)
            } else {
                None
            },
            units: u,
            knots,
            arc: if arc {
                Some(e + 1)
            } else {
                None
            },
            end: if arc {
                e + 9
            } else {
                e + 1
            },
        },
    )
}

/// Matches a wind group at `at`.
pub fn wind_at(text: &[char], at: usize) -> (r: Option<(Wind, usize)>)
    requires
        at <= text.len(),
    ensures
        r == wind_group(text@, at as int),
        advances(r, at, text@.len()),
{
    reveal(wind_group);
    match read_layout(text, at) {
        None => None,
        Some(l) => {
            let units = if l.knots {
                Unit::Knot
            } else {
                Unit::MetrePerSecond
            };
            let range = match l.arc {
                Some(p) => Some(
                    Quantity::new(
                        Value::Range(
                            ValueInRange::Exact(Number::from_integer(read_digits(text, p, 3) as i64)),
                            ValueInRange::Exact(
                                Number::from_integer(read_digits(text, p + 4, 3) as i64),
                            ),
                        ),
                        Unit::DegreeTrue,
                    ),
                ),
                None => None,
            };
            let gust = match l.gust {
                Some(p) => Quantity::new_opt(read_speed(text, p), units),
                None => None,
            };
            let wind = Wind {
                wind_from_direction: Quantity::new_opt(
                    read_direction(text, l.direction),
                    Unit::DegreeTrue,
                ),
                wind_from_direction_range: range,
                wind_speed: Quantity::new_opt(read_speed(text, l.direction + 3), units),
                wind_gust: gust,
            };
            Some((wind, l.end - at))
        },
    }
}

/// Matches a wind group at the start of `text`.
pub fn handle_wind(text: &str) -> (r: Option<(Wind, usize)>)
    ensures
        r == wind_group(text@, 0),
        advances(r, 0, text@.len()),
{
    let chars = chars_of(text);
    wind_at(chars.as_slice(), 0)
}

} // verus!
