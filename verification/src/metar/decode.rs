//! Decoding of a whole report.

use crate::datetime::CivilDateTime;
use crate::error::DecodeError;
use crate::metar::clean::{clean_str, cleaned, skip_space, trim_start, uppercase, uppercased};
use crate::metar::report::{Metar, MetarView};
use crate::metar::scan::{texts, walk, Scan, Scanner};
use crate::text::{copy_range, string_of};
use vstd::prelude::*;

verus! {

/// A decoded report and the groups of its text that no rule knew. These
/// groups are no error; they are handed out for diagnosis.
#[derive(Clone, Debug, PartialEq, Eq)]
pub struct Decoded {
    pub metar: Metar,
    pub unparsed_groups: Vec<String>,
}

/// What decoding makes of a text that is in upper case: the report and the
/// groups that no rule knew, or the first error met.
///
/// The text is cleaned, a blank is put at its end so that every group ends
/// with one, and the walk from its start in the main section is finished. The
/// report carries the cleaned text without a blank at its start.
pub open spec fn decoded(folded: Seq<char>, anchor: Option<CivilDateTime>) -> Result<
    (MetarView, Seq<Seq<char>>),
    DecodeError,
> {
    let text = cleaned(folded);
    match walk(text.push(' '), 0, Scan::start(trim_start(text)), anchor) {
        Ok(last) => Ok((last.finish(), last.unparsed)),
        Err(e) => Err(e),
    }
}

/// Whether `r` is the outcome `expected` of decoding.
pub open spec fn is_decoded(
    r: Result<Decoded, DecodeError>,
    expected: Result<(MetarView, Seq<Seq<char>>), DecodeError>,
) -> bool {
    match (r, expected) {
        (Ok(d), Ok((metar, unparsed))) => d.metar@ == metar && texts(d.unparsed_groups@)
            == unparsed,
        (Err(e), Err(f)) => e == f,
        _ => false,
    }
}

/// Decodes a report whose text is in upper case already.
///
/// If `anchor_time` is given, the day and time of the report and the times of
/// its trend forecasts become full dates and times near it.
pub fn decode_folded(folded: &str, anchor_time: Option<CivilDateTime>) -> (r: Result<
    Decoded,
    DecodeError,
>)
    requires
        anchor_time is Some ==> anchor_time->0.can_anchor(),
    ensures
        is_decoded(r, decoded(folded@, anchor_time)),
{
    let mut text = clean_str(folded);
    let from = skip_space(text.as_slice());
    let report = copy_range(text.as_slice(), from, text.len());
    let mut scanner = Scanner::new(string_of(report.as_slice()));
    text.push(' ');
    match scanner.walk(text.as_slice(), anchor_time) {
        Ok(()) => {
            let (metar, unparsed_groups) = scanner.finish();
            Ok(Decoded { metar, unparsed_groups })
        },
        Err(e) => Err(e),
    }
}

/// Decodes a report and hands out the groups that no rule knew with it.
///
/// The text is put in upper case and cleaned, then decoded group by group.
pub fn decode_report(report: &str, anchor_time: Option<CivilDateTime>) -> (r: Result<
    Decoded,
    DecodeError,
>)
    requires
        anchor_time is Some ==> anchor_time->0.can_anchor(),
    ensures
        is_decoded(r, decoded(uppercased(report@), anchor_time)),
{
    let folded = uppercase(report);
    decode_folded(folded.as_str(), anchor_time)
}

/// Decodes a METAR report into a [`Metar`].
///
/// # Arguments
///
/// * `report` - METAR report to decode.
/// * `anchor_time` - Specifies a datetime that is ideally close to that one when the report was
///   actually published. If given, the decoded METAR day and time will be converted to a full
///   datetime. See also [`crate::metar::MetarTime::to_date_time`].
pub fn decode_metar(report: &str, anchor_time: Option<CivilDateTime>) -> (r: Result<
    Metar,
    DecodeError,
>)
    requires
        anchor_time is Some ==> anchor_time->0.can_anchor(),
    ensures
        match (r, decoded(uppercased(report@), anchor_time)) {
            (Ok(metar), Ok((expected, _))) => metar@ == expected,
            (Err(e), Err(f)) => e == f,
            _ => false,
        },
{
    match decode_report(report, anchor_time) {
        Ok(d) => Ok(d.metar),
        Err(e) => Err(e),
    }
}

} // verus!
