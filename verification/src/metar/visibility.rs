//! The visibility group, such as `9999`, `10SM`, `1 1/2SM`, `4000 1500SW` or
//! `CAVOK`.

use crate::error::DecodeError;
use crate::metar::value::{token_result, Quantity, Unit, Value};
use crate::number::Number;
use crate::text::{
    char_at, chars_of, count_digits, decimal, digit, digit_run, four_at, has_four,
    has_three, has_two, is_digit, is_word1, is_word2, peek, read_decimal,
    three_at, two_at, word1, word2,
};
use vstd::prelude::*;
use vstd::slice::slice_subrange;

verus! {

/// Direction octant.
#[derive(Clone, Copy, Debug, PartialEq, Eq, Structural)]
pub enum DirectionOctant {
    North,
    NorthEast,
    East,
    SouthEast,
    South,
    SouthWest,
    West,
    NorthWest,
}

impl DirectionOctant {
    /// The octant that one or two compass letters name.
    pub open spec fn of_token(s: Seq<char>) -> Option<DirectionOctant> {
        if word1(s, 'N') {
            Some(DirectionOctant::North)
        } else if word2(s, 'N', 'E') {
            Some(DirectionOctant::NorthEast)
        } else if word1(s, 'E') {
            Some(DirectionOctant::East)
        } else if word2(s, 'S', 'E') {
            Some(DirectionOctant::SouthEast)
        } else if word1(s, 'S') {
            Some(DirectionOctant::South)
        } else if word2(s, 'S', 'W') {
            Some(DirectionOctant::SouthWest)
        } else if word1(s, 'W') {
            Some(DirectionOctant::West)
        } else if word2(s, 'N', 'W') {
            Some(DirectionOctant::NorthWest)
        } else {
            None
        }
    }

    pub fn from_chars(token: &[char]) -> (r: Result<DirectionOctant, DecodeError>)
        ensures
            r == token_result(
                DirectionOctant::of_token(token@),
                DecodeError::InvalidDirectionOctant,
            ),
    {
        if is_word1(token, 'N') {
            Ok(DirectionOctant::North)
        } else if is_word2(token, 'N', 'E') {
            Ok(DirectionOctant::NorthEast)
        } else if is_word1(token, 'E') {
            Ok(DirectionOctant::East)
        } else if is_word2(token, 'S', 'E') {
            Ok(DirectionOctant::SouthEast)
        } else if is_word1(token, 'S') {
            Ok(DirectionOctant::South)
        } else if is_word2(token, 'S', 'W') {
            Ok(DirectionOctant::SouthWest)
        } else if is_word1(token, 'W') {
            Ok(DirectionOctant::West)
        } else if is_word2(token, 'N', 'W') {
            Ok(DirectionOctant::NorthWest)
        } else {
            Err(DecodeError::InvalidDirectionOctant)
        }
    }

    /// Reads `N`, `NE`, `E`, `SE`, `S`, `SW`, `W` or `NW`.
    pub fn from_str(s: &str) -> (r: Result<DirectionOctant, DecodeError>)
        ensures
            r == token_result(DirectionOctant::of_token(s@), DecodeError::InvalidDirectionOctant),
    {
        let token = chars_of(s);
        DirectionOctant::from_chars(token.as_slice())
    }
}

/// Directional visibility.
#[derive(Clone, Copy, Debug, PartialEq, Eq, Structural)]
pub struct DirectionalVisibility {
    pub visibility: Quantity,
    pub direction: DirectionOctant,
}

/// Visibility groups.
#[derive(Clone, Debug, PartialEq, Eq)]
pub struct Visibility {
    pub prevailing_visibility: Option<Quantity>,
    pub minimum_visibility: Option<Quantity>,
    pub directional_visibilites: Vec<DirectionalVisibility>,
}

/// What a [`Visibility`] holds.
pub struct VisibilityView {
    pub prevailing_visibility: Option<Quantity>,
    pub minimum_visibility: Option<Quantity>,
    pub directional_visibilites: Seq<DirectionalVisibility>,
}

impl View for Visibility {
    type V = VisibilityView;

    open spec fn view(&self) -> VisibilityView {
        VisibilityView {
            prevailing_visibility: self.prevailing_visibility,
            minimum_visibility: self.minimum_visibility,
            directional_visibilites: self.directional_visibilites@,
        }
    }
}

impl VisibilityView {
    /// Whether nothing is reported.
    pub open spec fn empty(self) -> bool {
        &&& self.prevailing_visibility is None
        &&& self.minimum_visibility is None
        &&& self.directional_visibilites.len() == 0
    }
}

impl Default for Visibility {
    fn default() -> (r: Visibility)
        ensures
            r@.empty(),
    {
        Visibility {
            prevailing_visibility: None,
            minimum_visibility: None,
            directional_visibilites: Vec::new(),
        }
    }
}

impl Visibility {
    pub fn is_empty(&self) -> (r: bool)
        ensures
            r == self@.empty(),
    {
        self.prevailing_visibility.is_none() && self.minimum_visibility.is_none()
            && self.directional_visibilites.len() == 0
    }
}

/// One if `M` or `P` stands at `p`, else zero.
pub open spec fn prefix_len(s: Seq<char>, p: int) -> int {
    if char_at(s, p) == 'M' || char_at(s, p) == 'P' {
        1
    } else {
        0
    }
}

/// The length of the fraction at `p`: a digit, `/`, and one or two digits
/// after which no digit follows; zero if no such fraction stands there.
pub open spec fn fraction_len(s: Seq<char>, p: int) -> int {
    if !(is_digit(char_at(s, p)) && char_at(s, p + 1) == '/' && is_digit(char_at(s, p + 2))) {
        0
    } else if !is_digit(char_at(s, p + 3)) {
        3
    } else if !is_digit(char_at(s, p + 4)) {
        4
    } else {
        0
    }
}

/// The unit of distance whose letters stand at `p`.
pub open spec fn units_at(s: Seq<char>, p: int) -> Option<Unit> {
    if two_at(s, p, 'S', 'M') {
        Some(Unit::StatuteMile)
    } else if two_at(s, p, 'K', 'M') {
        Some(Unit::KiloMetre)
    } else {
        None
    }
}

/// What follows the prevailing visibility when that ends at `p`: optionally
/// `NDV`; then the unit `SM` or `KM`, with or without a blank before it, or no
/// unit, which means metres; then a blank. Gives the unit and the position of
/// that blank, or nothing if the text does not go on like this. Of two blanks
/// in a row where the unit would stand, the second is that blank.
pub open spec fn rest_at(s: Seq<char>, p: int) -> Option<(Unit, int)> {
    let q = if three_at(s, p, 'N', 'D', 'V') {
        p + 3
    } else {
        p
    };
    if char_at(s, q) == ' ' && units_at(s, q + 1) is Some && char_at(s, q + 3) == ' ' {
        Some((units_at(s, q + 1)->0, q + 3))
    } else if char_at(s, q) == ' ' && char_at(s, q + 1) == ' ' {
        Some((Unit::Metre, q + 1))
    } else if units_at(s, q) is Some && char_at(s, q + 2) == ' ' {
        Some((units_at(s, q)->0, q + 2))
    } else if char_at(s, q) == ' ' {
        Some((Unit::Metre, q))
    } else {
        None
    }
}

/// Where the prevailing visibility that starts at `at` ends.
///
/// It is the first of these after which the text goes on as [`rest_at`]
/// says: a mixed number `n d/d`, a fraction `d/d`, a whole number of one to
/// five digits, each with or without `M` or `P` in front; `////`; `CAVOK` or
/// `KAVOK`.
pub open spec fn prevailing_end(s: Seq<char>, at: int) -> Option<int> {
    let i = at + prefix_len(s, at);
    let w = digit_run(s, i);
    let mixed = i + w + 1 + fraction_len(s, i + w + 1);
    if w >= 1 && char_at(s, i + w) == ' ' && fraction_len(s, i + w + 1) > 0 && rest_at(s, mixed)
        is Some {
        Some(mixed)
    } else if fraction_len(s, i) > 0 && rest_at(s, i + fraction_len(s, i)) is Some {
        Some(i + fraction_len(s, i))
    } else if 1 <= w <= 5 && rest_at(s, i + w) is Some {
        Some(i + w)
    } else if four_at(s, at, '/', '/', '/', '/') && rest_at(s, at + 4) is Some {
        Some(at + 4)
    } else if (char_at(s, at) == 'C' || char_at(s, at) == 'K') && four_at(
        s,
        at + 1,
        'A',
        'V',
        'O',
        'K',
    ) && rest_at(s, at + 5) is Some {
        Some(at + 5)
    } else {
        None
    }
}

/// The prevailing visibility that stands from `at` up to `end`: none for
/// `////`, more than 10000 for `CAVOK` and `KAVOK`, else the value that the
/// characters spell, where exactly 9999 metres stands for more than 10000.
pub open spec fn prevailing_value(s: Seq<char>, at: int, end: int, units: Unit) -> Result<
    Option<Value>,
    DecodeError,
> {
    if char_at(s, at) == '/' {
        Ok(None)
    } else if char_at(s, at) == 'C' || char_at(s, at) == 'K' {
        Ok(Some(Value::Above(Number::of_int(10000))))
    } else {
        match Value::of_token(s.subrange(at, end)) {
            None => Err(DecodeError::InvalidNumber),
            Some(Value::Exact(x)) => if units == Unit::Metre && x.is_int(9999) {
                Ok(Some(Value::Above(Number::of_int(10000))))
            } else {
                Ok(Some(Value::Exact(x)))
            },
            Some(v) => Ok(Some(v)),
        }
    }
}

/// The length of the distance at `p`: one to four digits, with or without
/// `M` or `P` in front; zero if no such distance stands there.
pub open spec fn distance_len(s: Seq<char>, p: int) -> int {
    let m = prefix_len(s, p);
    let r = digit_run(s, p + m);
    if 1 <= r <= 4 {
        m + r
    } else {
        0
    }
}

/// The distance of length `n` at `p`: less than the number after `M`, more
/// than the number after `P`, else the number.
pub open spec fn distance_value(s: Seq<char>, p: int, n: int) -> Value {
    if char_at(s, p) == 'M' {
        Value::Below(Number::of_int(decimal(s, p + 1, (n - 1) as nat)))
    } else if char_at(s, p) == 'P' {
        Value::Above(Number::of_int(decimal(s, p + 1, (n - 1) as nat)))
    } else {
        Value::Exact(Number::of_int(decimal(s, p, n as nat)))
    }
}

/// The length of the minimum visibility at `p`: a blank, a distance, and
/// then a blank, which is not counted; zero if none stands there.
pub open spec fn minimum_len(s: Seq<char>, p: int) -> int {
    let n = distance_len(s, p + 1);
    if char_at(s, p) == ' ' && n > 0 && char_at(s, p + 1 + n) == ' ' {
        1 + n
    } else {
        0
    }
}

/// Whether `c` is one of the compass letters `N`, `E`, `S`, `W`.
pub open spec fn is_compass(c: char) -> bool {
    c == 'N' || c == 'E' || c == 'S' || c == 'W'
}

/// The number of letters of the direction at `p`: two if `E` or `W` is the
/// second, else one.
pub open spec fn direction_len(s: Seq<char>, p: int) -> int {
    if char_at(s, p + 1) == 'E' || char_at(s, p + 1) == 'W' {
        2
    } else {
        1
    }
}

/// The length of the directional visibility at `p`: a blank, a distance, a
/// compass letter, optionally `E` or `W`, and then a blank, which is not
/// counted; zero if none stands there.
pub open spec fn item_len(s: Seq<char>, p: int) -> int {
    let n = distance_len(s, p + 1);
    let d = p + 1 + n;
    if char_at(s, p) == ' ' && n > 0 && is_compass(char_at(s, d)) && char_at(
        s,
        d + direction_len(s, d),
    ) == ' ' {
        1 + n + direction_len(s, d)
    } else {
        0
    }
}

/// The directional visibility at `p`, unless its letters name no octant.
pub open spec fn item_value(s: Seq<char>, p: int, units: Unit) -> Option<DirectionalVisibility> {
    let n = distance_len(s, p + 1);
    let d = p + 1 + n;
    match DirectionOctant::of_token(s.subrange(d, d + direction_len(s, d))) {
        Some(direction) => Some(
            DirectionalVisibility {
                visibility: Quantity { value: distance_value(s, p + 1, n), units },
                direction,
            },
        ),
        None => None,
    }
}

/// Where the run of directional visibilities that starts at `p` ends.
pub open spec fn items_end(s: Seq<char>, p: int) -> int
    decreases s.len() - p,
{
    if 0 <= p < s.len() && item_len(s, p) > 0 {
        items_end(s, p + item_len(s, p))
    } else {
        p
    }
}

/// The directional visibilities that stand in a row from `p` on, or an error
/// if the letters of one of them name no octant.
pub open spec fn items(s: Seq<char>, p: int, units: Unit) -> Result<
    Seq<DirectionalVisibility>,
    DecodeError,
>
    decreases s.len() - p,
{
    if 0 <= p < s.len() && item_len(s, p) > 0 {
        match (item_value(s, p, units), items(s, p + item_len(s, p), units)) {
            (Some(v), Ok(rest)) => Ok(seq![v] + rest),
            (None, _) => Err(DecodeError::InvalidDirectionOctant),
            (_, Err(e)) => Err(e),
        }
    } else {
        Ok(Seq::empty())
    }
}

/// The visibility group at `at`.
///
/// The prevailing visibility and what [`rest_at`] says follows it; then
/// optionally the minimum visibility; then any number of directional
/// visibilities; then a blank. Gives nothing if no such group stands there; an
/// error if one does and a number in it cannot be read or a direction names no
/// octant; else what the group reports, whether it is `CAVOK`, and the
/// characters it takes. All distances are in the unit of the group.
#[verifier::opaque]
pub open spec fn visibility_group(s: Seq<char>, at: int) -> Result<
    Option<(VisibilityView, bool, usize)>,
    DecodeError,
> {
    match prevailing_end(s, at) {
        None => Ok(None),
        Some(end) => {
            let (units, tail) = rest_at(s, end)->0;
            let m = minimum_len(s, tail);
            match (prevailing_value(s, at, end, units), items(s, tail + m, units)) {
                (Err(e), _) => Err(e),
                (_, Err(e)) => Err(e),
                (Ok(value), Ok(list)) => Ok(
                    Some(
                        (
                            VisibilityView {
                                prevailing_visibility: Quantity::of(value, units),
                                minimum_visibility: if m > 0 {
                                    Some(
                                        Quantity {
                                            value: distance_value(s, tail + 1, m - 1),
                                            units,
                                        },
                                    )
                                } else {
                                    None
                                },
                                directional_visibilites: list,
                            },
                            char_at(s, at) == 'C' || char_at(s, at) == 'K',
                            (items_end(s, tail + m) + 1 - at) as usize,
                        ),
                    ),
                ),
            }
        },
    }
}

/// What a match holds, for a visibility.
pub open spec fn visibility_viewed(r: Result<Option<(Visibility, bool, usize)>, DecodeError>)
    -> Result<Option<(VisibilityView, bool, usize)>, DecodeError> {
    match r {
        Ok(Some((v, c, n))) => Ok(Some((v@, c, n))),
        Ok(None) => Ok(None),
        Err(e) => Err(e),
    }
}

/// Whether a match, if there is one, takes at least one character from `at`
/// and none past the end of a text of `len` characters.
pub open spec fn visibility_advances(
    r: Result<Option<(Visibility, bool, usize)>, DecodeError>,
    at: usize,
    len: nat,
) -> bool {
    match r {
        Ok(Some((_, _, n))) => 0 < n && at + n <= len,
        _ => true,
    }
}

/// A group that starts with `CAVOK` and a blank reports a prevailing
/// visibility of more than 10000 metres and says that it is `CAVOK`, unless
/// a number in what follows cannot be read.
pub proof fn lemma_cavok_group(s: Seq<char>, at: int)
    requires
        char_at(s, at) == 'C',
        four_at(s, at + 1, 'A', 'V', 'O', 'K'),
        char_at(s, at + 5) == ' ',
        !(units_at(s, at + 6) is Some && char_at(s, at + 8) == ' '),
    ensures
        visibility_group(s, at) is Ok ==> visibility_group(s, at)->Ok_0 is Some && ({
            let (v, cavok, n) = visibility_group(s, at)->Ok_0->0;
            &&& cavok
            &&& v.prevailing_visibility == Some(
                Quantity { value: Value::Above(Number::of_int(10000)), units: Unit::Metre },
            )
        }),
{
    reveal(visibility_group);
    reveal_with_fuel(digit_run, 2);
}

fn prefix(c: char) -> (r: usize)
    ensures
        r == (if c == 'M' || c == 'P' {
            1int
        } else {
            0int
        }),
{
    if c == 'M' || c == 'P' {
        1
    } else {
        0
    }
}

fn read_fraction_len(text: &[char], p: usize) -> (n: usize)
    ensures
        n == fraction_len(text@, p as int),
        n > 0 ==> p + n <= text.len(),
{
    if !(digit(peek(text, p, 0)) && peek(text, p, 1) == '/' && digit(peek(text, p, 2))) {
        0
    } else if !digit(peek(text, p, 3)) {
        3
    } else if !digit(peek(text, p, 4)) {
        4
    } else {
        0
    }
}

fn read_units(text: &[char], p: usize) -> (r: Option<Unit>)
    ensures
        r == units_at(text@, p as int),
        r is Some ==> p + 2 <= text.len(),
{
    if has_two(text, p, 'S', 'M') {
        Some(Unit::StatuteMile)
    } else if has_two(text, p, 'K', 'M') {
        Some(Unit::KiloMetre)
    } else {
        None
    }
}

fn read_rest(text: &[char], p: usize) -> (r: Option<(Unit, usize)>)
    ensures
        match rest_at(text@, p as int) {
            Some((units, tail)) => r == Some((units, tail as usize)) && p <= tail < text.len(),
            None => r is None,
        },
{
    let q = if has_three(text, p, 'N', 'D', 'V') {
        p + 3
    } else {
        p
    };
    if peek(text, q, 0) == ' ' {
        match read_units(text, q + 1) {
            Some(units) => {
                if peek(text, q, 3) == ' ' {
                    return Some((units, q + 3));
                }
            },
            None => {},
        }
        if peek(text, q, 1) == ' ' {
            return Some((Unit::Metre, q + 1));
        }
    }
    match read_units(text, q) {
        Some(units) => {
            if peek(text, q, 2) == ' ' {
                return Some((units, q + 2));
            }
        },
        None => {},
    }
    if peek(text, q, 0) == ' ' {
        Some((Unit::Metre, q))
    } else {
        None
    }
}

/// Counts the digits that stand in a row from `p` on.
fn count_run(text: &[char], p: usize) -> (n: usize)
    requires
        p <= text.len(),
    ensures
        n == digit_run(text@, p as int),
        p + n <= text.len(),
{
    let mut n: usize = 0;
    while n < text.len() - p && digit(text[p + n])
        invariant
            p <= text.len(),
            p + n <= text.len(),
            digit_run(text@, p as int) == n + digit_run(text@, p + n),
        decreases text.len() - p - n,
    {
        n += 1;
    }
    n
}

fn read_prevailing_end(text: &[char], at: usize) -> (r: Option<usize>)
    requires
        at <= text.len(),
    ensures
        match prevailing_end(text@, at as int) {
            Some(end) => r == Some(end as usize) && at < end < text.len(),
            None => r is None,
        },
{
    let first = peek(text, at, 0);
    let i = at + prefix(first);
    let w = count_run(text, i);
    if w >= 1 && peek(text, i, w) == ' ' {
        let f = read_fraction_len(text, i + w + 1);
        if f > 0 && read_rest(text, i + w + 1 + f).is_some() {
            return Some(i + w + 1 + f);
        }
    }
    let f = read_fraction_len(text, i);
    if f > 0 && read_rest(text, i + f).is_some() {
        return Some(i + f);
    }
    if 1 <= w && w <= 5 && read_rest(text, i + w).is_some() {
        return Some(i + w);
    }
    if has_four(text, at, '/', '/', '/', '/') && read_rest(text, at + 4).is_some() {
        return Some(at + 4);
    }
    if (first == 'C' || first == 'K') && has_four(text, at + 1, 'A', 'V', 'O', 'K') && read_rest(
        text,
        at + 5,
    ).is_some() {
        return Some(at + 5);
    }
    None
}

fn read_prevailing(text: &[char], at: usize, end: usize, units: Unit) -> (r: Result<
    Option<Value>,
    DecodeError,
>)
    requires
        at < end <= text.len(),
    ensures
        r == prevailing_value(text@, at as int, end as int, units),
{
    let first = text[at];
    if first == '/' {
        Ok(None)
    } else if first == 'C' || first == 'K' {
        Ok(Some(Value::Above(Number::from_integer(10000))))
    } else {
        match Value::from_chars(slice_subrange(text, at, end)) {
            Err(e) => Err(e),
            Ok(Value::Exact(x)) => {
                let metres = match units {
                    Unit::Metre => true,
                    _ => false,
                };
                if metres && x.equals_integer(9999) {
                    Ok(Some(Value::Above(Number::from_integer(10000))))
                } else {
                    Ok(Some(Value::Exact(x)))
                }
            },
            Ok(v) => Ok(Some(v)),
        }
    }
}

fn read_distance_len(text: &[char], p: usize) -> (n: usize)
    requires
        p <= text.len(),
    ensures
        n == distance_len(text@, p as int),
        p + n <= text.len(),
{
    let m = prefix(peek(text, p, 0));
    let r = count_digits(text, p + m, 5);
    if 1 <= r && r <= 4 {
        m + r
    } else {
        0
    }
}

fn read_distance(text: &[char], p: usize, n: usize) -> (v: Value)
    requires
        p <= text.len(),
        n > 0,
        n == distance_len(text@, p as int),
    ensures
        v == distance_value(text@, p as int, n as int),
{
    let first = peek(text, p, 0);
    if first == 'M' {
        Value::Below(Number::from_integer(read_decimal(text, p + 1, n - 1) as i64))
    } else if first == 'P' {
        Value::Above(Number::from_integer(read_decimal(text, p + 1, n - 1) as i64))
    } else {
        Value::Exact(Number::from_integer(read_decimal(text, p, n) as i64))
    }
}

fn read_item_len(text: &[char], p: usize) -> (n: usize)
    requires
        p < text.len(),
    ensures
        n == item_len(text@, p as int),
        p + n < text.len(),
{
    let n = read_distance_len(text, p + 1);
    let d = p + 1 + n;
    let first = peek(text, d, 0);
    let second = peek(text, d, 1);
    let k: usize = if second == 'E' || second == 'W' {
        2
    } else {
        1
    };
    if text[p] == ' ' && n > 0 && (first == 'N' || first == 'E' || first == 'S' || first == 'W')
        && peek(text, d, k) == ' ' {
        1 + n + k
    } else {
        0
    }
}

fn read_item(text: &[char], p: usize, n: usize, units: Unit) -> (r: Option<DirectionalVisibility>)
    requires
        p < text.len(),
        n > 0,
        n == item_len(text@, p as int),
    ensures
        r == item_value(text@, p as int, units),
{
    let m = read_distance_len(text, p + 1);
    let d = p + 1 + m;
    match DirectionOctant::from_chars(slice_subrange(text, d, p + n)) {
        Ok(direction) => Some(
            DirectionalVisibility {
                visibility: Quantity { value: read_distance(text, p + 1, m), units },
                direction,
            },
        ),
        Err(_) => None,
    }
}

/// Reads the directional visibilities that stand in a row from `from` on.
/// Gives them and the position where the run ends.
fn read_items(text: &[char], from: usize, units: Unit) -> (r: Result<
    (Vec<DirectionalVisibility>, usize),
    DecodeError,
>)
    requires
        from < text.len(),
    ensures
        match (r, items(text@, from as int, units)) {
            (Ok((list, end)), Ok(found)) => list@ == found && end == items_end(text@, from as int)
                && from <= end < text.len(),
            (Err(e), Err(f)) => e == f,
            _ => false,
        },
{
    let mut list: Vec<DirectionalVisibility> = Vec::new();
    let mut p: usize = from;
    let mut k = read_item_len(text, p);
    while k > 0
        invariant
            from <= p < text.len(),
            k == item_len(text@, p as int),
            p + k < text.len(),
            items_end(text@, from as int) == items_end(text@, p as int),
            items(text@, from as int, units) == (match items(text@, p as int, units) {
                Ok(rest) => Ok(list@ + rest),
                Err(e) => Err(e),
            }),
        decreases text.len() - p,
    {
        match read_item(text, p, k, units) {
            None => {
                assert(items(text@, p as int, units) is Err);
                return Err(DecodeError::InvalidDirectionOctant);
            },
            Some(item) => {
                proof {
                    let rest = items(text@, p + k, units);
                    if rest is Ok {
                        assert(list@ + (seq![item] + rest->Ok_0) =~= list@.push(item)
                            + rest->Ok_0);
                    }
                }
                list.push(item);
            },
        }
        p += k;
        k = read_item_len(text, p);
    }
    assert(list@ + Seq::<DirectionalVisibility>::empty() =~= list@);
    Ok((list, p))
}

/// Matches a visibility group at `at`.
pub fn visibility_at(text: &[char], at: usize) -> (r: Result<
    Option<(Visibility, bool, usize)>,
    DecodeError,
>)
    requires
        at <= text.len(),
    ensures
        visibility_viewed(r) == visibility_group(text@, at as int),
        visibility_advances(r, at, text@.len()),
{
    reveal(visibility_group);
    let end = match read_prevailing_end(text, at) {
        None => {
            return Ok(None);
        },
        Some(end) => end,
    };
    let (units, tail) = match read_rest(text, end) {
        None => {
            return Ok(None);
        },
        Some(rest) => rest,
    };
    let value = match read_prevailing(text, at, end, units) {
        Err(e) => {
            return Err(e);
        },
        Ok(value) => value,
    };
    let n = read_distance_len(text, tail + 1);
    let m: usize = if n > 0 && peek(text, tail + 1, n) == ' ' {
        1 + n
    } else {
        0
    };
    let minimum_visibility = if m > 0 {
        Some(Quantity { value: read_distance(text, tail + 1, n), units })
    } else {
        None
    };
    let (list, last) = match read_items(text, tail + m, units) {
        Err(e) => {
            return Err(e);
        },
        Ok(found) => found,
    };
    let first = text[at];
    let visibility = Visibility {
        prevailing_visibility: Quantity::new_opt(value, units),
        minimum_visibility,
        directional_visibilites: list,
    };
    Ok(Some((visibility, first == 'C' || first == 'K', last + 1 - at)))
}

/// Matches a visibility group at the start of `text`.
pub fn handle_visibility(text: &str) -> (r: Result<Option<(Visibility, bool, usize)>, DecodeError>)
    ensures
        visibility_viewed(r) == visibility_group(text@, 0),
        visibility_advances(r, 0, text@.len()),
{
    let chars = chars_of(text);
    visibility_at(chars.as_slice(), 0)
}

} // verus!
