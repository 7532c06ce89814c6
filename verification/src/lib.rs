//! Decoder for METAR and SPECI aerodrome weather reports.
//!
//! A report is a line of groups with blanks between them.
//! [`metar::decode_metar`] cleans the line, walks it from left to right,
//! recognises each group by its shape and folds what the group says into a
//! [`metar::Metar`]. Numbers are exact fractions, see [`number::Number`], and
//! partial times become full ones near an anchor, see
//! [`metar::MetarTime::to_date_time`].
//!
//! Every function carries a contract over the characters of the text, and the
//! contracts are proved. What is taken on trust is marked as such: the
//! calendar arithmetic of `chrono` and `chronoutil` in [`datetime`], and two
//! functions of the standard library on strings.

pub mod datetime;
pub mod error;
pub mod metar;
pub mod number;
pub mod text;
