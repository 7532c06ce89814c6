//! Groups that a report may carry and the decoder passes over: colour states,
//! rainfall amounts and runway states.

use crate::metar::wind_shear::{read_runway_len, runway_len};
use crate::text::{
    char_at, chars_of, digit, ends_at, four_at, has_five, has_four, has_three, has_two, is_digit,
    peek, three_at, two_at, five_at,
};
use vstd::prelude::*;

verus! {

/// The length of the colour code at `p`: `BLACK`, `BLU+`, `BLU`, `GRN`,
/// `WHT`, `RED`, `AMB` or `YLO`; zero if none of them stands there.
pub open spec fn colour_len(s: Seq<char>, p: int) -> int {
    if five_at(s, p, 'B', 'L', 'A', 'C', 'K') {
        5
    } else if four_at(s, p, 'B', 'L', 'U', '+') {
        4
    } else if three_at(s, p, 'B', 'L', 'U') || three_at(s, p, 'G', 'R', 'N') || three_at(
        s,
        p,
        'W',
        'H',
        'T',
    ) || three_at(s, p, 'R', 'E', 'D') || three_at(s, p, 'A', 'M', 'B') || three_at(
        s,
        p,
        'Y',
        'L',
        'O',
    ) {
        3
    } else {
        0
    }
}

/// Where the run of colour codes that starts at `p` ends.
pub open spec fn colours_end(s: Seq<char>, p: int) -> int
    decreases s.len() - p,
{
    if 0 <= p < s.len() && colour_len(s, p) > 0 {
        colours_end(s, p + colour_len(s, p))
    } else {
        p
    }
}

/// The colour state at `at`: one or more colour codes and a blank. Gives the
/// characters taken.
#[verifier::opaque]
pub open spec fn colour_group(s: Seq<char>, at: int) -> Option<usize> {
    let e = colours_end(s, at);
    if e > at && ends_at(s, e) {
        Some((e + 1 - at) as usize)
    } else {
        None
    }
}

/// Whether `c` is a digit or `/`.
pub open spec fn is_figure(c: char) -> bool {
    is_digit(c) || c == '/'
}

/// Whether `c` is `.` or `/`.
pub open spec fn is_point(c: char) -> bool {
    c == '.' || c == '/'
}

/// The rainfall group at `at`: `RF`, then `dd.d/ddd.d` where each `d` may be
/// `/` and each `.` may be `/`, and a blank. Gives the characters taken.
#[verifier::opaque]
pub open spec fn rainfall_group(s: Seq<char>, at: int) -> Option<usize> {
    if two_at(s, at, 'R', 'F') && is_figure(char_at(s, at + 2)) && is_figure(char_at(s, at + 3))
        && is_point(char_at(s, at + 4)) && is_figure(char_at(s, at + 5)) && char_at(s, at + 6)
        == '/' && is_figure(char_at(s, at + 7)) && is_figure(char_at(s, at + 8)) && is_figure(
        char_at(s, at + 9),
    ) && is_point(char_at(s, at + 10)) && is_figure(char_at(s, at + 11)) && ends_at(s, at + 12) {
        Some(13)
    } else {
        None
    }
}

/// How many of the characters from `p` on are digits or `/`, up to `n`.
pub open spec fn figures_at(s: Seq<char>, p: int, n: int) -> bool {
    &&& (n >= 1 ==> is_figure(char_at(s, p)))
    &&& (n >= 2 ==> is_figure(char_at(s, p + 1)))
    &&& (n >= 3 ==> is_figure(char_at(s, p + 2)))
    &&& (n >= 4 ==> is_figure(char_at(s, p + 3)))
    &&& (n >= 5 ==> is_figure(char_at(s, p + 4)))
    &&& (n >= 6 ==> is_figure(char_at(s, p + 5)))
}

/// The runway state at `at`: `R`, a runway designator, `/`, then six figures
/// or `CLRD` and two figures, where a figure is a digit or `/`; and a blank.
/// Gives the characters taken.
#[verifier::opaque]
pub open spec fn runway_state_group(s: Seq<char>, at: int) -> Option<usize> {
    let n = runway_len(s, at + 1);
    let q = at + n + 2;
    if char_at(s, at) != 'R' || n == 0 || char_at(s, at + 1 + n) != '/' {
        None
    } else if (figures_at(s, q, 6) || (four_at(s, q, 'C', 'L', 'R', 'D') && figures_at(
        s,
        q + 4,
        2,
    ))) && ends_at(s, q + 6) {
        Some((n + 9) as usize)
    } else {
        None
    }
}

fn figure(c: char) -> (r: bool)
    ensures
        r == is_figure(c),
{
    digit(c) || c == '/'
}

fn point(c: char) -> (r: bool)
    ensures
        r == is_point(c),
{
    c == '.' || c == '/'
}

fn has_figures(text: &[char], p: usize, n: usize) -> (r: bool)
    requires
        n <= 6,
    ensures
        r == figures_at(text@, p as int, n as int),
{
    let mut i: usize = 0;
    while i < n
        invariant
            i <= n <= 6,
            figures_at(text@, p as int, i as int),
        decreases n - i,
    {
        if !figure(peek(text, p, i)) {
            return false;
        }
        i += 1;
    }
    true
}

fn read_colour_len(text: &[char], p: usize) -> (n: usize)
    ensures
        n == colour_len(text@, p as int),
        n > 0 ==> p + n <= text.len(),
{
    if has_five(text, p, 'B', 'L', 'A', 'C', 'K') {
        5
    } else if has_four(text, p, 'B', 'L', 'U', '+') {
        4
    } else if has_three(text, p, 'B', 'L', 'U') || has_three(text, p, 'G', 'R', 'N') || has_three(
        text,
        p,
        'W',
        'H',
        'T',
    ) || has_three(text, p, 'R', 'E', 'D') || has_three(text, p, 'A', 'M', 'B') || has_three(
        text,
        p,
        'Y',
        'L',
        'O',
    ) {
        3
    } else {
        0
    }
}

/// Matches a colour state at `at`.
pub fn colour_at(text: &[char], at: usize) -> (r: Option<usize>)
    requires
        at <= text.len(),
    ensures
        r == colour_group(text@, at as int),
        r is Some ==> 0 < r->0 && at + r->0 <= text.len(),
{
    reveal(colour_group);
    let mut e: usize = at;
    let mut n = read_colour_len(text, e);
    while n > 0
        invariant
            at <= e <= text.len(),
            n == colour_len(text@, e as int),
            n > 0 ==> e + n <= text.len(),
            colours_end(text@, at as int) == colours_end(text@, e as int),
        decreases text.len() - e,
    {
        e += n;
        n = read_colour_len(text, e);
    }
    if e > at && peek(text, e, 0) == ' ' {
        Some(e + 1 - at)
    } else {
        None
    }
}

/// Matches a rainfall group at `at`.
pub fn rainfall_at(text: &[char], at: usize) -> (r: Option<usize>)
    ensures
        r == rainfall_group(text@, at as int),
        r is Some ==> 0 < r->0 && at + r->0 <= text.len(),
{
    reveal(rainfall_group);
    if has_two(text, at, 'R', 'F') && figure(peek(text, at, 2)) && figure(peek(text, at, 3))
        && point(peek(text, at, 4)) && figure(peek(text, at, 5)) && peek(text, at, 6) == '/'
        && figure(peek(text, at, 7)) && figure(peek(text, at, 8)) && figure(peek(text, at, 9))
        && point(peek(text, at, 10)) && figure(peek(text, at, 11)) && peek(text, at, 12) == ' ' {
        Some(13)
    } else {
        None
    }
}

/// Matches a runway state at `at`.
pub fn runway_state_at(text: &[char], at: usize) -> (r: Option<usize>)
    requires
        at <= text.len(),
    ensures
        r == runway_state_group(text@, at as int),
        r is Some ==> 0 < r->0 && at + r->0 <= text.len(),
{
    reveal(runway_state_group);
    if peek(text, at, 0) != 'R' {
        return None;
    }
    let n = read_runway_len(text, at + 1);
    if n == 0 || peek(text, at + 1, n) != '/' {
        return None;
    }
    let q = at + n + 2;
    if (has_figures(text, q, 6) || (has_four(text, q, 'C', 'L', 'R', 'D') && has_figures(
        text,
        q + 4,
        2,
    ))) && peek(text, q, 6) == ' ' {
        Some(n + 9)
    } else {
        None
    }
}

/// Matches a colour state at the start of `text`: one or more of `BLACK`,
/// `BLU+`, `BLU`, `GRN`, `WHT`, `RED`, `AMB`, `YLO`, followed by a blank.
pub fn handle_color(text: &str) -> (r: Option<usize>)
    ensures
        r == colour_group(text@, 0),
        r is Some ==> 0 < r->0 <= text@.len(),
{
    let chars = chars_of(text);
    colour_at(chars.as_slice(), 0)
}

/// Matches a rainfall group at the start of `text`.
pub fn handle_rainfall(text: &str) -> (r: Option<usize>)
    ensures
        r == rainfall_group(text@, 0),
        r is Some ==> 0 < r->0 <= text@.len(),
{
    let chars = chars_of(text);
    rainfall_at(chars.as_slice(), 0)
}

/// Matches a runway state at the start of `text`.
pub fn handle_runway_state(text: &str) -> (r: Option<usize>)
    ensures
        r == runway_state_group(text@, 0),
        r is Some ==> 0 < r->0 <= text@.len(),
{
    let chars = chars_of(text);
    runway_state_at(chars.as_slice(), 0)
}

} // verus!
