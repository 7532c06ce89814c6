//! The wind shear group: `WS R27L` or `WS ALL RWY`.

use crate::text::{
    advances, char_at, chars_of, copy_range, digits_at, ends_at, has_digits, has_three, is_upper, peek, string_of, three_at, upper, viewed,
};
use vstd::prelude::*;

verus! {

/// Wind shear group.
#[derive(Clone, Debug, PartialEq, Eq)]
pub struct WindShear {
    /// The runway, or `all` for all runways.
    pub runway: String,
}

/// What a [`WindShear`] holds.
pub struct WindShearView {
    pub runway: Seq<char>,
}

impl View for WindShear {
    type V = WindShearView;

    open spec fn view(&self) -> WindShearView {
        WindShearView { runway: self.runway@ }
    }
}

/// The length of a runway designator at `p`: two digits and optionally a
/// letter; zero if no two digits stand there.
pub open spec fn runway_len(s: Seq<char>, p: int) -> int {
    if !digits_at(s, p, 2) {
        0
    } else if is_upper(char_at(s, p + 2)) {
        3
    } else {
        2
    }
}

/// The wind shear group at `at`: `WS`, a blank, then `R` and a runway
/// designator, which is reported without the `R`, or `ALL RWY`, which is
/// reported as `all`; and a blank.
#[verifier::opaque]
pub open spec fn wind_shear_group(s: Seq<char>, at: int) -> Option<(WindShearView, usize)> {
    let n = runway_len(s, at + 4);
    if !(three_at(s, at, 'W', 'S', ' ')) {
        None
    } else if char_at(s, at + 3) == 'R' && n > 0 && ends_at(s, at + 4 + n) {
        Some((WindShearView { runway: s.subrange(at + 4, at + 4 + n) }, (n + 5) as usize))
    } else if three_at(s, at + 3, 'A', 'L', 'L') && char_at(s, at + 6) == ' ' && three_at(
        s,
        at + 7,
        'R',
        'W',
        'Y',
    ) && ends_at(s, at + 10) {
        Some((WindShearView { runway: seq!['a', 'l', 'l'] }, 11))
    } else {
        None
    }
}

pub(crate) fn read_runway_len(text: &[char], p: usize) -> (n: usize)
    ensures
        n == runway_len(text@, p as int),
        n > 0 ==> p + n <= text.len(),
{
    if !has_digits(text, p, 2) {
        0
    } else if upper(peek(text, p, 2)) {
        3
    } else {
        2
    }
}

/// Matches a wind shear group at `at`.
pub fn wind_shear_at(text: &[char], at: usize) -> (r: Option<(WindShear, usize)>)
    requires
        at <= text.len(),
    ensures
        viewed(r) == wind_shear_group(text@, at as int),
        advances(r, at, text@.len()),
{
    reveal(wind_shear_group);
    if !has_three(text, at, 'W', 'S', ' ') {
        return None;
    }
    let n = if peek(text, at, 3) == 'R' {
        read_runway_len(text, at + 4)
    } else {
        0
    };
    if n > 0 && peek(text, at + 4, n) == ' ' {
        let runway = copy_range(text, at + 4, at + 4 + n);
        Some((WindShear { runway: string_of(runway.as_slice()) }, n + 5))
    } else if has_three(text, at + 3, 'A', 'L', 'L') && peek(text, at, 6) == ' ' && has_three(
        text,
        at + 7,
        'R',
        'W',
        'Y',
    ) && peek(text, at, 10) == ' ' {
        let runway: [char; 3] = ['a', 'l', 'l'];
        assert(runway@ =~= seq!['a', 'l', 'l']);
        Some((WindShear { runway: string_of(runway.as_slice()) }, 11))
    } else {
        None
    }
}

/// Matches a wind shear group at the start of `text`.
pub fn handle_wind_shear(text: &str) -> (r: Option<(WindShear, usize)>)
    ensures
        viewed(r) == wind_shear_group(text@, 0),
        advances(r, 0, text@.len()),
{
    let chars = chars_of(text);
    wind_shear_at(chars.as_slice(), 0)
}

} // verus!
