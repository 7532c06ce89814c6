//! The ways in which decoding can fail.

use vstd::prelude::*;

verus! {

/// Why a token or a whole report could not be decoded.
#[derive(Clone, Copy, Debug, PartialEq, Eq, Structural)]
pub enum DecodeError {
    /// A number is missing, has more than nine digits, or divides by zero.
    InvalidNumber,
    /// Hour and minute do not form a time of day.
    InvalidTime,
    /// No month near the anchor has the reported day.
    InvalidDate,
    InvalidTrend,
    InvalidSection,
    InvalidUnit,
    InvalidDirectionOctant,
    InvalidRunwayVisualRangeTrend,
    InvalidWeatherIntensity,
    InvalidWeatherDescriptor,
    InvalidWeatherPhenomena,
    InvalidCloudCover,
    InvalidCloudType,
    InvalidSeaState,
    InvalidTrendTimeIndicator,
}

impl DecodeError {
    /// The words that describe the error.
    pub open spec fn text(self) -> Seq<char> {
        match self {
            DecodeError::InvalidNumber => "Invalid number"@,
            DecodeError::InvalidTime => "Invalid time of day"@,
            DecodeError::InvalidDate => "Date guessing failed"@,
            DecodeError::InvalidTrend => "Invalid trend"@,
            DecodeError::InvalidSection => "Invalid section"@,
            DecodeError::InvalidUnit => "Invalid units"@,
            DecodeError::InvalidDirectionOctant => "Invalid direction octant"@,
            DecodeError::InvalidRunwayVisualRangeTrend => "Invalid runway visual range trend"@,
            DecodeError::InvalidWeatherIntensity => "Invalid weather intensity"@,
            DecodeError::InvalidWeatherDescriptor => "Invalid weather descriptor"@,
            DecodeError::InvalidWeatherPhenomena => "Invalid weather phenomena"@,
            DecodeError::InvalidCloudCover => "Invalid cloud cover"@,
            DecodeError::InvalidCloudType => "Invalid cloud type"@,
            DecodeError::InvalidSeaState => "Invalid sea state"@,
            DecodeError::InvalidTrendTimeIndicator => "Invalid trend time indicator"@,
        }
    }

    /// A short description for log lines and user messages.
    pub fn message(&self) -> (m: &'static str)
        ensures
            m@ == self.text(),
    {
        match self {
            DecodeError::InvalidNumber => "Invalid number",
            DecodeError::InvalidTime => "Invalid time of day",
            DecodeError::InvalidDate => "Date guessing failed",
            DecodeError::InvalidTrend => "Invalid trend",
            DecodeError::InvalidSection => "Invalid section",
            DecodeError::InvalidUnit => "Invalid units",
            DecodeError::InvalidDirectionOctant => "Invalid direction octant",
            DecodeError::InvalidRunwayVisualRangeTrend => "Invalid runway visual range trend",
            DecodeError::InvalidWeatherIntensity => "Invalid weather intensity",
            DecodeError::InvalidWeatherDescriptor => "Invalid weather descriptor",
            DecodeError::InvalidWeatherPhenomena => "Invalid weather phenomena",
            DecodeError::InvalidCloudCover => "Invalid cloud cover",
            DecodeError::InvalidCloudType => "Invalid cloud type",
            DecodeError::InvalidSeaState => "Invalid sea state",
            DecodeError::InvalidTrendTimeIndicator => "Invalid trend time indicator",
        }
    }
}

} // verus!
