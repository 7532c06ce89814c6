//! The sections of a report and the markers that open them.

use crate::error::DecodeError;
use crate::metar::value::token_result;
use crate::text::{
    advances, chars_of, ends_at, five_at, has_five, has_three, is_word3, is_word5, peek, three_at, word3,
    word5,
};
use vstd::prelude::*;

verus! {

/// TREND forecast change indicator.
#[derive(Clone, Copy, Debug, PartialEq, Eq, Structural)]
pub enum Trend {
    /// No significant changes are expected.
    NoSignificantChange,
    /// Expected temporary fluctuations in the meteorological conditions.
    Temporary,
    /// Expected changes which reach or pass specified values.
    Becoming,
}

impl Default for Trend {
    fn default() -> (r: Trend)
        ensures
            r == Trend::NoSignificantChange,
    {
        Trend::NoSignificantChange
    }
}

impl Trend {
    /// The trend that `NOSIG`, `TEMPO` or `BECMG` names.
    pub open spec fn of_token(s: Seq<char>) -> Option<Trend> {
        if word5(s, 'N', 'O', 'S', 'I', 'G') {
            Some(Trend::NoSignificantChange)
        } else if word5(s, 'T', 'E', 'M', 'P', 'O') {
            Some(Trend::Temporary)
        } else if word5(s, 'B', 'E', 'C', 'M', 'G') {
            Some(Trend::Becoming)
        } else {
            None
        }
    }

    pub fn from_chars(token: &[char]) -> (r: Result<Trend, DecodeError>)
        ensures
            r == token_result(Trend::of_token(token@), DecodeError::InvalidTrend),
    {
        if is_word5(token, 'N', 'O', 'S', 'I', 'G') {
            Ok(Trend::NoSignificantChange)
        } else if is_word5(token, 'T', 'E', 'M', 'P', 'O') {
            Ok(Trend::Temporary)
        } else if is_word5(token, 'B', 'E', 'C', 'M', 'G') {
            Ok(Trend::Becoming)
        } else {
            Err(DecodeError::InvalidTrend)
        }
    }

    /// Reads `NOSIG`, `TEMPO` or `BECMG`.
    pub fn from_str(s: &str) -> (r: Result<Trend, DecodeError>)
        ensures
            r == token_result(Trend::of_token(s@), DecodeError::InvalidTrend),
    {
        let token = chars_of(s);
        Trend::from_chars(token.as_slice())
    }
}

/// The part of a report that the decoder is in.
#[derive(Clone, Copy, Debug, PartialEq, Eq, Structural)]
pub enum Section {
    /// The observation itself.
    Main,
    /// A trend forecast.
    Trend(Trend),
    /// Remarks in free text.
    Remark,
}

impl Section {
    /// The section that `RMK` or a trend indicator opens.
    pub open spec fn of_token(s: Seq<char>) -> Option<Section> {
        if word3(s, 'R', 'M', 'K') {
            Some(Section::Remark)
        } else {
            match Trend::of_token(s) {
                Some(trend) => Some(Section::Trend(trend)),
                None => None,
            }
        }
    }

    pub fn from_chars(token: &[char]) -> (r: Result<Section, DecodeError>)
        ensures
            r == token_result(Section::of_token(token@), DecodeError::InvalidSection),
    {
        if is_word3(token, 'R', 'M', 'K') {
            Ok(Section::Remark)
        } else {
            match Trend::from_chars(token) {
                Ok(trend) => Ok(Section::Trend(trend)),
                Err(_) => Err(DecodeError::InvalidSection),
            }
        }
    }

    /// Reads `RMK`, `NOSIG`, `TEMPO` or `BECMG`.
    pub fn from_str(s: &str) -> (r: Result<Section, DecodeError>)
        ensures
            r == token_result(Section::of_token(s@), DecodeError::InvalidSection),
    {
        let token = chars_of(s);
        Section::from_chars(token.as_slice())
    }
}

/// The section marker at `at`: one of `NOSIG`, `TEMPO`, `BECMG`, `RMK` and
/// the blank after it. Gives the section and the characters taken.
#[verifier::opaque]
pub open spec fn section_group(s: Seq<char>, at: int) -> Option<(Section, usize)> {
    if five_at(s, at, 'N', 'O', 'S', 'I', 'G') && ends_at(s, at + 5) {
        Some((Section::Trend(Trend::NoSignificantChange), 6))
    } else if five_at(s, at, 'T', 'E', 'M', 'P', 'O') && ends_at(s, at + 5) {
        Some((Section::Trend(Trend::Temporary), 6))
    } else if five_at(s, at, 'B', 'E', 'C', 'M', 'G') && ends_at(s, at + 5) {
        Some((Section::Trend(Trend::Becoming), 6))
    } else if three_at(s, at, 'R', 'M', 'K') && ends_at(s, at + 3) {
        Some((Section::Remark, 4))
    } else {
        None
    }
}

/// Matches a section marker at `at`.
pub fn section_at(text: &[char], at: usize) -> (r: Option<(Section, usize)>)
    ensures
        r == section_group(text@, at as int),
        advances(r, at, text@.len()),
{
    reveal(section_group);
    if has_five(text, at, 'N', 'O', 'S', 'I', 'G') && peek(text, at, 5) == ' ' {
        Some((Section::Trend(Trend::NoSignificantChange), 6))
    } else if has_five(text, at, 'T', 'E', 'M', 'P', 'O') && peek(text, at, 5) == ' ' {
        Some((Section::Trend(Trend::Temporary), 6))
    } else if has_five(text, at, 'B', 'E', 'C', 'M', 'G') && peek(text, at, 5) == ' ' {
        Some((Section::Trend(Trend::Becoming), 6))
    } else if has_three(text, at, 'R', 'M', 'K') && peek(text, at, 3) == ' ' {
        Some((Section::Remark, 4))
    } else {
        None
    }
}

/// Matches a section marker at the start of `text`: `NOSIG`, `TEMPO`, `BECMG`
/// or `RMK`, followed by a blank.
pub fn handle_section(text: &str) -> (r: Option<(Section, usize)>)
    ensures
        r == section_group(text@, 0),
        advances(r, 0, text@.len()),
{
    let chars = chars_of(text);
    section_at(chars.as_slice(), 0)
}

} // verus!
