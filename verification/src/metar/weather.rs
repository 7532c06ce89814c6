//! Weather groups, such as `-RA`, `+TSRAGR`, `VCSH`, `FZFG` or `NSW`, and the
//! same after `RE` for recent weather.

use crate::error::DecodeError;
use crate::metar::value::token_result;
use crate::text::{
    advances, char_at, chars_of, ends_at, has_three, has_two, is_word1, peek, three_at, two_at,
    viewed, word1, word3,
};
use vstd::prelude::*;

verus! {

/// Weather intensity.
#[derive(Clone, Copy, Debug, PartialEq, Eq, Structural)]
pub enum WeatherIntensity {
    Light,
    Moderate,
    Heavy,
}

impl WeatherIntensity {
    /// The intensity that `-` or `+` names.
    pub open spec fn of_token(s: Seq<char>) -> Option<WeatherIntensity> {
        if word1(s, '-') {
            Some(WeatherIntensity::Light)
        } else if word1(s, '+') {
            Some(WeatherIntensity::Heavy)
        } else {
            None
        }
    }

    pub fn from_chars(token: &[char]) -> (r: Result<WeatherIntensity, DecodeError>)
        ensures
            r == token_result(
                WeatherIntensity::of_token(token@),
                DecodeError::InvalidWeatherIntensity,
            ),
    {
        if is_word1(token, '-') {
            Ok(WeatherIntensity::Light)
        } else if is_word1(token, '+') {
            Ok(WeatherIntensity::Heavy)
        } else {
            Err(DecodeError::InvalidWeatherIntensity)
        }
    }

    /// Reads `-` or `+`.
    pub fn from_str(s: &str) -> (r: Result<WeatherIntensity, DecodeError>)
        ensures
            r == token_result(WeatherIntensity::of_token(s@), DecodeError::InvalidWeatherIntensity),
    {
        let token = chars_of(s);
        WeatherIntensity::from_chars(token.as_slice())
    }
}

/// Weather descriptor.
#[derive(Clone, Copy, Debug, PartialEq, Eq, Structural)]
pub enum WeatherDescriptor {
    Shallow,
    Patches,
    Partial,
    LowDrifting,
    Blowing,
    Shower,
    Thunderstorm,
    Freezing,
}

impl WeatherDescriptor {
    /// The descriptor whose two letters stand at `p`.
    pub open spec fn at(s: Seq<char>, p: int) -> Option<WeatherDescriptor> {
        if two_at(s, p, 'M', 'I') {
            Some(WeatherDescriptor::Shallow)
        } else if two_at(s, p, 'B', 'C') {
            Some(WeatherDescriptor::Patches)
        } else if two_at(s, p, 'P', 'R') {
            Some(WeatherDescriptor::Partial)
        } else if two_at(s, p, 'D', 'R') {
            Some(WeatherDescriptor::LowDrifting)
        } else if two_at(s, p, 'B', 'L') {
            Some(WeatherDescriptor::Blowing)
        } else if two_at(s, p, 'S', 'H') {
            Some(WeatherDescriptor::Shower)
        } else if two_at(s, p, 'T', 'S') {
            Some(WeatherDescriptor::Thunderstorm)
        } else if two_at(s, p, 'F', 'Z') {
            Some(WeatherDescriptor::Freezing)
        } else {
            None
        }
    }

    /// The descriptor that a token names.
    pub open spec fn of_token(s: Seq<char>) -> Option<WeatherDescriptor> {
        if s.len() == 2 {
            WeatherDescriptor::at(s, 0)
        } else {
            None
        }
    }

    /// The descriptor whose two letters stand at `p`.
    pub fn read(text: &[char], p: usize) -> (r: Option<WeatherDescriptor>)
        ensures
            r == WeatherDescriptor::at(text@, p as int),
            r is Some ==> p + 2 <= text.len(),
    {
        if has_two(text, p, 'M', 'I') {
            Some(WeatherDescriptor::Shallow)
        } else if has_two(text, p, 'B', 'C') {
            Some(WeatherDescriptor::Patches)
        } else if has_two(text, p, 'P', 'R') {
            Some(WeatherDescriptor::Partial)
        } else if has_two(text, p, 'D', 'R') {
            Some(WeatherDescriptor::LowDrifting)
        } else if has_two(text, p, 'B', 'L') {
            Some(WeatherDescriptor::Blowing)
        } else if has_two(text, p, 'S', 'H') {
            Some(WeatherDescriptor::Shower)
        } else if has_two(text, p, 'T', 'S') {
            Some(WeatherDescriptor::Thunderstorm)
        } else if has_two(text, p, 'F', 'Z') {
            Some(WeatherDescriptor::Freezing)
        } else {
            None
        }
    }

    pub fn from_chars(token: &[char]) -> (r: Result<WeatherDescriptor, DecodeError>)
        ensures
            r == token_result(
                WeatherDescriptor::of_token(token@),
                DecodeError::InvalidWeatherDescriptor,
            ),
    {
        if token.len() == 2 {
            match WeatherDescriptor::read(token, 0) {
                Some(d) => Ok(d),
                None => Err(DecodeError::InvalidWeatherDescriptor),
            }
        } else {
            Err(DecodeError::InvalidWeatherDescriptor)
        }
    }

    /// Reads `MI`, `BC`, `PR`, `DR`, `BL`, `SH`, `TS` or `FZ`.
    pub fn from_str(s: &str) -> (r: Result<WeatherDescriptor, DecodeError>)
        ensures
            r == token_result(
                WeatherDescriptor::of_token(s@),
                DecodeError::InvalidWeatherDescriptor,
            ),
    {
        let token = chars_of(s);
        WeatherDescriptor::from_chars(token.as_slice())
    }
}

/// Weather phenomena.
#[derive(Clone, Copy, Debug, PartialEq, Eq, Structural)]
pub enum WeatherPhenomena {
    Drizzle,
    Rain,
    Snow,
    SnowGrains,
    IcePellets,
    Hail,
    SnowPellets,
    UnknownPrecipitation,
    Mist,
    Fog,
    Smoke,
    VolcanicAsh,
    Dust,
    Sand,
    Haze,
    DustWhirls,
    Squalls,
    FunnelCloud,
    Sandstorm,
    Duststorm,
    IceCrystals,
    Spray,
    NilSignificantWeather,
}

impl WeatherPhenomena {
    /// The phenomenon whose two letters stand at `p`.
    pub open spec fn at(s: Seq<char>, p: int) -> Option<WeatherPhenomena> {
        if two_at(s, p, 'D', 'Z') {
            Some(WeatherPhenomena::Drizzle)
        } else if two_at(s, p, 'R', 'A') {
            Some(WeatherPhenomena::Rain)
        } else if two_at(s, p, 'S', 'N') {
            Some(WeatherPhenomena::Snow)
        } else if two_at(s, p, 'S', 'G') {
            Some(WeatherPhenomena::SnowGrains)
        } else if two_at(s, p, 'P', 'L') {
            Some(WeatherPhenomena::IcePellets)
        } else if two_at(s, p, 'G', 'R') {
            Some(WeatherPhenomena::Hail)
        } else if two_at(s, p, 'G', 'S') {
            Some(WeatherPhenomena::SnowPellets)
        } else if two_at(s, p, 'U', 'P') {
            Some(WeatherPhenomena::UnknownPrecipitation)
        } else if two_at(s, p, 'B', 'R') {
            Some(WeatherPhenomena::Mist)
        } else if two_at(s, p, 'F', 'G') {
            Some(WeatherPhenomena::Fog)
        } else if two_at(s, p, 'F', 'U') {
            Some(WeatherPhenomena::Smoke)
        } else if two_at(s, p, 'V', 'A') {
            Some(WeatherPhenomena::VolcanicAsh)
        } else if two_at(s, p, 'D', 'U') {
            Some(WeatherPhenomena::Dust)
        } else if two_at(s, p, 'S', 'A') {
            Some(WeatherPhenomena::Sand)
        } else if two_at(s, p, 'H', 'Z') {
            Some(WeatherPhenomena::Haze)
        } else if two_at(s, p, 'P', 'O') {
            Some(WeatherPhenomena::DustWhirls)
        } else if two_at(s, p, 'S', 'Q') {
            Some(WeatherPhenomena::Squalls)
        } else if two_at(s, p, 'F', 'C') {
            Some(WeatherPhenomena::FunnelCloud)
        } else if two_at(s, p, 'S', 'S') {
            Some(WeatherPhenomena::Sandstorm)
        } else if two_at(s, p, 'D', 'S') {
            Some(WeatherPhenomena::Duststorm)
        } else if two_at(s, p, 'I', 'C') {
            Some(WeatherPhenomena::IceCrystals)
        } else if two_at(s, p, 'P', 'Y') {
            Some(WeatherPhenomena::Spray)
        } else {
            None
        }
    }

    /// The phenomenon that a token names: two letters, or `NSW`.
    pub open spec fn of_token(s: Seq<char>) -> Option<WeatherPhenomena> {
        if s.len() == 2 {
            WeatherPhenomena::at(s, 0)
        } else if word3(s, 'N', 'S', 'W') {
            Some(WeatherPhenomena::NilSignificantWeather)
        } else {
            None
        }
    }

    /// The phenomenon whose two letters stand at `p`.
    pub fn read(text: &[char], p: usize) -> (r: Option<WeatherPhenomena>)
        ensures
            r == WeatherPhenomena::at(text@, p as int),
            r is Some ==> p + 2 <= text.len(),
    {
        if has_two(text, p, 'D', 'Z') {
            Some(WeatherPhenomena::Drizzle)
        } else if has_two(text, p, 'R', 'A') {
            Some(WeatherPhenomena::Rain)
        } else if has_two(text, p, 'S', 'N') {
            Some(WeatherPhenomena::Snow)
        } else if has_two(text, p, 'S', 'G') {
            Some(WeatherPhenomena::SnowGrains)
        } else if has_two(text, p, 'P', 'L') {
            Some(WeatherPhenomena::IcePellets)
        } else if has_two(text, p, 'G', 'R') {
            Some(WeatherPhenomena::Hail)
        } else if has_two(text, p, 'G', 'S') {
            Some(WeatherPhenomena::SnowPellets)
        } else if has_two(text, p, 'U', 'P') {
            Some(WeatherPhenomena::UnknownPrecipitation)
        } else if has_two(text, p, 'B', 'R') {
            Some(WeatherPhenomena::Mist)
        } else if has_two(text, p, 'F', 'G') {
            Some(WeatherPhenomena::Fog)
        } else if has_two(text, p, 'F', 'U') {
            Some(WeatherPhenomena::Smoke)
        } else if has_two(text, p, 'V', 'A') {
            Some(WeatherPhenomena::VolcanicAsh)
        } else if has_two(text, p, 'D', 'U') {
            Some(WeatherPhenomena::Dust)
        } else if has_two(text, p, 'S', 'A') {
            Some(WeatherPhenomena::Sand)
        } else if has_two(text, p, 'H', 'Z') {
            Some(WeatherPhenomena::Haze)
        } else if has_two(text, p, 'P', 'O') {
            Some(WeatherPhenomena::DustWhirls)
        } else if has_two(text, p, 'S', 'Q') {
            Some(WeatherPhenomena::Squalls)
        } else if has_two(text, p, 'F', 'C') {
            Some(WeatherPhenomena::FunnelCloud)
        } else if has_two(text, p, 'S', 'S') {
            Some(WeatherPhenomena::Sandstorm)
        } else if has_two(text, p, 'D', 'S') {
            Some(WeatherPhenomena::Duststorm)
        } else if has_two(text, p, 'I', 'C') {
            Some(WeatherPhenomena::IceCrystals)
        } else if has_two(text, p, 'P', 'Y') {
            Some(WeatherPhenomena::Spray)
        } else {
            None
        }
    }

    pub fn from_chars(token: &[char]) -> (r: Result<WeatherPhenomena, DecodeError>)
        ensures
            r == token_result(
                WeatherPhenomena::of_token(token@),
                DecodeError::InvalidWeatherPhenomena,
            ),
    {
        if token.len() == 2 {
            match WeatherPhenomena::read(token, 0) {
                Some(p) => Ok(p),
                None => Err(DecodeError::InvalidWeatherPhenomena),
            }
        } else if token.len() == 3 && has_three(token, 0, 'N', 'S', 'W') {
            Ok(WeatherPhenomena::NilSignificantWeather)
        } else {
            Err(DecodeError::InvalidWeatherPhenomena)
        }
    }

    /// Reads the two letters of a phenomenon, or `NSW`.
    pub fn from_str(s: &str) -> (r: Result<WeatherPhenomena, DecodeError>)
        ensures
            r == token_result(WeatherPhenomena::of_token(s@), DecodeError::InvalidWeatherPhenomena),
    {
        let token = chars_of(s);
        WeatherPhenomena::from_chars(token.as_slice())
    }
}

/// Weather condition.
#[derive(Clone, Debug, PartialEq, Eq)]
pub struct WeatherCondition {
    pub intensity: WeatherIntensity,
    /// Flag if the specified weather condition occurs only in the vicinity
    /// of the aerodrome but not at/above the aerodrome.
    pub is_in_vicinity: bool,
    pub descriptors: Vec<WeatherDescriptor>,
    pub phenomena: Vec<WeatherPhenomena>,
}

/// What a [`WeatherCondition`] holds.
pub struct WeatherConditionView {
    pub intensity: WeatherIntensity,
    pub is_in_vicinity: bool,
    pub descriptors: Seq<WeatherDescriptor>,
    pub phenomena: Seq<WeatherPhenomena>,
}

impl View for WeatherCondition {
    type V = WeatherConditionView;

    open spec fn view(&self) -> WeatherConditionView {
        WeatherConditionView {
            intensity: self.intensity,
            is_in_vicinity: self.is_in_vicinity,
            descriptors: self.descriptors@,
            phenomena: self.phenomena@,
        }
    }
}

/// The length of the weather code at `p`: two letters for `VC`, a descriptor
/// or a phenomenon, three for `NSW`; zero if none of them stands there.
pub open spec fn code_len(s: Seq<char>, p: int) -> int {
    if two_at(s, p, 'V', 'C') || WeatherDescriptor::at(s, p) is Some || WeatherPhenomena::at(s, p)
        is Some {
        2
    } else if three_at(s, p, 'N', 'S', 'W') {
        3
    } else {
        0
    }
}

/// Where the run of weather codes that starts at `p` ends.
pub open spec fn codes_end(s: Seq<char>, p: int) -> int
    decreases s.len() - p,
{
    if 0 <= p < s.len() && code_len(s, p) > 0 {
        codes_end(s, p + code_len(s, p))
    } else {
        p
    }
}

/// Whether one of the pairs of letters from `from` up to `to` is `VC`.
pub open spec fn vicinity_in(s: Seq<char>, from: int, to: int) -> bool
    decreases to - from,
{
    if from + 2 > to {
        false
    } else {
        two_at(s, from, 'V', 'C') || vicinity_in(s, from + 2, to)
    }
}

/// The descriptors among the pairs of letters from `from` up to `to`.
pub open spec fn descriptors_in(s: Seq<char>, from: int, to: int) -> Seq<WeatherDescriptor>
    decreases to - from,
{
    if from + 2 > to {
        Seq::empty()
    } else {
        match WeatherDescriptor::at(s, from) {
            Some(d) => seq![d] + descriptors_in(s, from + 2, to),
            None => descriptors_in(s, from + 2, to),
        }
    }
}

/// The phenomena among the pairs of letters from `from` up to `to`.
pub open spec fn phenomena_in(s: Seq<char>, from: int, to: int) -> Seq<WeatherPhenomena>
    decreases to - from,
{
    if from + 2 > to {
        Seq::empty()
    } else {
        match WeatherPhenomena::at(s, from) {
            Some(d) => seq![d] + phenomena_in(s, from + 2, to),
            None => phenomena_in(s, from + 2, to),
        }
    }
}

/// What the weather codes from `from` up to `to` report.
///
/// `NSW` alone is the phenomenon of that name. Anything else is read two
/// letters at a time from `from` on: `VC` says that the weather is in the
/// vicinity, a descriptor or a phenomenon is listed, any other pair is passed
/// over.
pub open spec fn condition_of(s: Seq<char>, from: int, to: int, intensity: WeatherIntensity)
    -> WeatherConditionView {
    if to == from + 3 && three_at(s, from, 'N', 'S', 'W') {
        WeatherConditionView {
            intensity,
            is_in_vicinity: false,
            descriptors: Seq::empty(),
            phenomena: seq![WeatherPhenomena::NilSignificantWeather],
        }
    } else {
        WeatherConditionView {
            intensity,
            is_in_vicinity: vicinity_in(s, from, to),
            descriptors: descriptors_in(s, from, to),
            phenomena: phenomena_in(s, from, to),
        }
    }
}

/// The weather group at `at`: optionally `-` for light or `+` for heavy,
/// else moderate; one or more weather codes; a blank.
#[verifier::opaque]
pub open spec fn weather_group(s: Seq<char>, at: int) -> Option<(WeatherConditionView, usize)> {
    let from = if char_at(s, at) == '-' || char_at(s, at) == '+' {
        at + 1
    } else {
        at
    };
    let intensity = if char_at(s, at) == '-' {
        WeatherIntensity::Light
    } else if char_at(s, at) == '+' {
        WeatherIntensity::Heavy
    } else {
        WeatherIntensity::Moderate
    };
    let to = codes_end(s, from);
    if to > from && ends_at(s, to) {
        Some((condition_of(s, from, to, intensity), (to + 1 - at) as usize))
    } else {
        None
    }
}

/// The recent weather group at `at`: `RE` and then a weather group.
#[verifier::opaque]
pub open spec fn recent_weather_group(s: Seq<char>, at: int) -> Option<
    (WeatherConditionView, usize),
> {
    if two_at(s, at, 'R', 'E') {
        match weather_group(s, at + 2) {
            Some((w, n)) => Some((w, (n + 2) as usize)),
            None => None,
        }
    } else {
        None
    }
}

fn read_code_len(text: &[char], p: usize) -> (n: usize)
    ensures
        n == code_len(text@, p as int),
        n > 0 ==> p + n <= text.len(),
{
    if has_two(text, p, 'V', 'C') || WeatherDescriptor::read(text, p).is_some()
        || WeatherPhenomena::read(text, p).is_some() {
        2
    } else if has_three(text, p, 'N', 'S', 'W') {
        3
    } else {
        0
    }
}

fn read_condition(text: &[char], from: usize, to: usize, intensity: WeatherIntensity) -> (w:
    WeatherCondition)
    requires
        from <= to <= text.len(),
    ensures
        w@ == condition_of(text@, from as int, to as int, intensity),
{
    let mut is_in_vicinity = false;
    let mut descriptors: Vec<WeatherDescriptor> = Vec::new();
    let mut phenomena: Vec<WeatherPhenomena> = Vec::new();
    if to - from == 3 && has_three(text, from, 'N', 'S', 'W') {
        phenomena.push(WeatherPhenomena::NilSignificantWeather);
        assert(phenomena@ =~= seq![WeatherPhenomena::NilSignificantWeather]);
        assert(descriptors@ =~= Seq::empty());
        return WeatherCondition { intensity, is_in_vicinity, descriptors, phenomena };
    }
    let mut p: usize = from;
    while to - p >= 2
        invariant
            from <= p <= to <= text.len(),
            vicinity_in(text@, from as int, to as int) == (is_in_vicinity || vicinity_in(
                text@,
                p as int,
                to as int,
            )),
            descriptors_in(text@, from as int, to as int) =~= descriptors@ + descriptors_in(
                text@,
                p as int,
                to as int,
            ),
            phenomena_in(text@, from as int, to as int) =~= phenomena@ + phenomena_in(
                text@,
                p as int,
                to as int,
            ),
        decreases to - p,
    {
        if has_two(text, p, 'V', 'C') {
            is_in_vicinity = true;
        }
        match WeatherDescriptor::read(text, p) {
            Some(d) => {
                descriptors.push(d);
            },
            None => {},
        }
        match WeatherPhenomena::read(text, p) {
            Some(d) => {
                phenomena.push(d);
            },
            None => {},
        }
        p += 2;
    }
    WeatherCondition { intensity, is_in_vicinity, descriptors, phenomena }
}

/// Matches a weather group at `at`.
pub fn weather_at(text: &[char], at: usize) -> (r: Option<(WeatherCondition, usize)>)
    requires
        at <= text.len(),
    ensures
        viewed(r) == weather_group(text@, at as int),
        advances(r, at, text@.len()),
{
    reveal(weather_group);
    let sign = peek(text, at, 0);
    let from = if sign == '-' || sign == '+' {
        at + 1
    } else {
        at
    };
    let intensity = if sign == '-' {
        WeatherIntensity::Light
    } else if sign == '+' {
        WeatherIntensity::Heavy
    } else {
        WeatherIntensity::Moderate
    };
    let mut to: usize = from;
    let mut n = read_code_len(text, to);
    while n > 0
        invariant
            from <= to <= text.len(),
            n == code_len(text@, to as int),
            n > 0 ==> to + n <= text.len(),
            codes_end(text@, from as int) == codes_end(text@, to as int),
        decreases text.len() - to,
    {
        to += n;
        n = read_code_len(text, to);
    }
    if to > from && peek(text, to, 0) == ' ' {
        Some((read_condition(text, from, to, intensity), to + 1 - at))
    } else {
        None
    }
}

/// Matches a recent weather group at `at`.
pub fn recent_weather_at(text: &[char], at: usize) -> (r: Option<(WeatherCondition, usize)>)
    requires
        at <= text.len(),
    ensures
        viewed(r) == recent_weather_group(text@, at as int),
        advances(r, at, text@.len()),
{
    reveal(recent_weather_group);
    if has_two(text, at, 'R', 'E') {
        match weather_at(text, at + 2) {
            Some((w, n)) => Some((w, n + 2)),
            None => None,
        }
    } else {
        None
    }
}

/// Matches a weather group at the start of `text`.
pub fn handle_present_weather(text: &str) -> (r: Option<(WeatherCondition, usize)>)
    ensures
        viewed(r) == weather_group(text@, 0),
        advances(r, 0, text@.len()),
{
    let chars = chars_of(text);
    weather_at(chars.as_slice(), 0)
}

/// Matches a recent weather group at the start of `text`.
pub fn handle_recent_weather(text: &str) -> (r: Option<(WeatherCondition, usize)>)
    ensures
        viewed(r) == recent_weather_group(text@, 0),
        advances(r, 0, text@.len()),
{
    let chars = chars_of(text);
    recent_weather_at(chars.as_slice(), 0)
}

} // verus!
