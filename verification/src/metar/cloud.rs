//! Cloud layers, such as `FEW020`, `BKN035CB`, `VV002` or `NSC`.

use crate::error::DecodeError;
use crate::metar::value::{token_result, Quantity, Unit, Value};
use crate::number::Number;
use crate::text::{
    advances, char_at, chars_of, decimal, digits_at, find, find_char, has_digits, has_three,
    has_two, is_word2, is_word3, is_word4, is_word5, read_digits, three_at, two_at, word2,
    word3, word4, word5,
};
use vstd::prelude::*;
use vstd::slice::slice_subrange;

verus! {

/// Cloud cover.
#[derive(Clone, Copy, Debug, PartialEq, Eq, Structural)]
pub enum CloudCover {
    Clear,
    SkyClear,
    NilSignificantCloud,
    NoCloudDetected,
    Few,
    Scattered,
    Broken,
    Overcast,
    /// Obscured sky but vertical visibility is available.
    VerticalVisibility,
    /// No cloud of operational significance in CAVOK conditions.
    CeilingOk,
}

impl CloudCover {
    /// The cover whose code stands at `p`.
    pub open spec fn at(s: Seq<char>, p: int) -> Option<CloudCover> {
        if three_at(s, p, 'C', 'L', 'R') {
            Some(CloudCover::Clear)
        } else if three_at(s, p, 'S', 'K', 'C') {
            Some(CloudCover::SkyClear)
        } else if three_at(s, p, 'N', 'S', 'C') {
            Some(CloudCover::NilSignificantCloud)
        } else if three_at(s, p, 'N', 'C', 'D') {
            Some(CloudCover::NoCloudDetected)
        } else if three_at(s, p, 'F', 'E', 'W') {
            Some(CloudCover::Few)
        } else if three_at(s, p, 'S', 'C', 'T') {
            Some(CloudCover::Scattered)
        } else if three_at(s, p, 'B', 'K', 'N') {
            Some(CloudCover::Broken)
        } else if three_at(s, p, 'O', 'V', 'C') {
            Some(CloudCover::Overcast)
        } else if two_at(s, p, 'V', 'V') {
            Some(CloudCover::VerticalVisibility)
        } else {
            None
        }
    }

    /// The length of the cover's code.
    pub open spec fn code_len(self) -> int {
        if self is VerticalVisibility {
            2
        } else {
            3
        }
    }

    /// The cover that a token names.
    pub open spec fn of_token(s: Seq<char>) -> Option<CloudCover> {
        match CloudCover::at(s, 0) {
            Some(cover) => if s.len() == cover.code_len() {
                Some(cover)
            } else {
                None
            },
            None => None,
        }
    }

    /// The cover whose code stands at `p`.
    pub fn read(text: &[char], p: usize) -> (r: Option<CloudCover>)
        ensures
            r == CloudCover::at(text@, p as int),
            r is Some ==> p + r->0.code_len() <= text.len(),
    {
        if has_three(text, p, 'C', 'L', 'R') {
            Some(CloudCover::Clear)
        } else if has_three(text, p, 'S', 'K', 'C') {
            Some(CloudCover::SkyClear)
        } else if has_three(text, p, 'N', 'S', 'C') {
            Some(CloudCover::NilSignificantCloud)
        } else if has_three(text, p, 'N', 'C', 'D') {
            Some(CloudCover::NoCloudDetected)
        } else if has_three(text, p, 'F', 'E', 'W') {
            Some(CloudCover::Few)
        } else if has_three(text, p, 'S', 'C', 'T') {
            Some(CloudCover::Scattered)
        } else if has_three(text, p, 'B', 'K', 'N') {
            Some(CloudCover::Broken)
        } else if has_three(text, p, 'O', 'V', 'C') {
            Some(CloudCover::Overcast)
        } else if has_two(text, p, 'V', 'V') {
            Some(CloudCover::VerticalVisibility)
        } else {
            None
        }
    }

    pub fn from_chars(token: &[char]) -> (r: Result<CloudCover, DecodeError>)
        ensures
            r == token_result(CloudCover::of_token(token@), DecodeError::InvalidCloudCover),
    {
        match CloudCover::read(token, 0) {
            Some(CloudCover::VerticalVisibility) => {
                if token.len() == 2 {
                    Ok(CloudCover::VerticalVisibility)
                } else {
                    Err(DecodeError::InvalidCloudCover)
                }
            },
            Some(cover) => {
                if token.len() == 3 {
                    Ok(cover)
                } else {
                    Err(DecodeError::InvalidCloudCover)
                }
            },
            None => Err(DecodeError::InvalidCloudCover),
        }
    }

    /// Reads `CLR`, `SKC`, `NSC`, `NCD`, `FEW`, `SCT`, `BKN`, `OVC` or `VV`.
    pub fn from_str(s: &str) -> (r: Result<CloudCover, DecodeError>)
        ensures
            r == token_result(CloudCover::of_token(s@), DecodeError::InvalidCloudCover),
    {
        let token = chars_of(s);
        CloudCover::from_chars(token.as_slice())
    }
}

/// Cloud type.
#[derive(Clone, Copy, Debug, PartialEq, Eq, Structural)]
pub enum CloudType {
    Altocumulus,
    AltocumulusCastellanus,
    AltocumulusLenticularis,
    Altostratus,
    Cumulonimbus,
    CumulonimbusMammatus,
    Cirrocumulus,
    CirrocumulusLenticularis,
    Cirrus,
    Cirrostratus,
    Cumulus,
    Nimbostratus,
    Stratocumulus,
    StratocumulusLenticularis,
    Stratus,
    ToweringCumulus,
}

impl CloudType {
    /// The cloud type that a token names.
    pub open spec fn of_token(s: Seq<char>) -> Option<CloudType> {
        if word2(s, 'A', 'C') {
            Some(CloudType::Altocumulus)
        } else if word3(s, 'A', 'C', 'C') {
            Some(CloudType::AltocumulusCastellanus)
        } else if word4(s, 'A', 'C', 'S', 'L') {
            Some(CloudType::AltocumulusLenticularis)
        } else if word2(s, 'A', 'S') {
            Some(CloudType::Altostratus)
        } else if word2(s, 'C', 'B') {
            Some(CloudType::Cumulonimbus)
        } else if word5(s, 'C', 'B', 'M', 'A', 'M') {
            Some(CloudType::CumulonimbusMammatus)
        } else if word2(s, 'C', 'C') {
            Some(CloudType::Cirrocumulus)
        } else if word4(s, 'C', 'C', 'S', 'L') {
            Some(CloudType::CirrocumulusLenticularis)
        } else if word2(s, 'C', 'I') {
            Some(CloudType::Cirrus)
        } else if word2(s, 'C', 'S') {
            Some(CloudType::Cirrostratus)
        } else if word2(s, 'C', 'U') {
            Some(CloudType::Cumulus)
        } else if word2(s, 'N', 'S') {
            Some(CloudType::Nimbostratus)
        } else if word2(s, 'S', 'C') {
            Some(CloudType::Stratocumulus)
        } else if word4(s, 'S', 'C', 'S', 'L') {
            Some(CloudType::StratocumulusLenticularis)
        } else if word2(s, 'S', 'T') {
            Some(CloudType::Stratus)
        } else if word3(s, 'T', 'C', 'U') || word2(s, 'T', 'U') {
            Some(CloudType::ToweringCumulus)
        } else {
            None
        }
    }

    pub fn from_chars(token: &[char]) -> (r: Result<CloudType, DecodeError>)
        ensures
            r == token_result(CloudType::of_token(token@), DecodeError::InvalidCloudType),
    {
        if is_word2(token, 'A', 'C') {
            Ok(CloudType::Altocumulus)
        } else if is_word3(token, 'A', 'C', 'C') {
            Ok(CloudType::AltocumulusCastellanus)
        } else if is_word4(token, 'A', 'C', 'S', 'L') {
            Ok(CloudType::AltocumulusLenticularis)
        } else if is_word2(token, 'A', 'S') {
            Ok(CloudType::Altostratus)
        } else if is_word2(token, 'C', 'B') {
            Ok(CloudType::Cumulonimbus)
        } else if is_word5(token, 'C', 'B', 'M', 'A', 'M') {
            Ok(CloudType::CumulonimbusMammatus)
        } else if is_word2(token, 'C', 'C') {
            Ok(CloudType::Cirrocumulus)
        } else if is_word4(token, 'C', 'C', 'S', 'L') {
            Ok(CloudType::CirrocumulusLenticularis)
        } else if is_word2(token, 'C', 'I') {
            Ok(CloudType::Cirrus)
        } else if is_word2(token, 'C', 'S') {
            Ok(CloudType::Cirrostratus)
        } else if is_word2(token, 'C', 'U') {
            Ok(CloudType::Cumulus)
        } else if is_word2(token, 'N', 'S') {
            Ok(CloudType::Nimbostratus)
        } else if is_word2(token, 'S', 'C') {
            Ok(CloudType::Stratocumulus)
        } else if is_word4(token, 'S', 'C', 'S', 'L') {
            Ok(CloudType::StratocumulusLenticularis)
        } else if is_word2(token, 'S', 'T') {
            Ok(CloudType::Stratus)
        } else if is_word3(token, 'T', 'C', 'U') || is_word2(token, 'T', 'U') {
            Ok(CloudType::ToweringCumulus)
        } else {
            Err(DecodeError::InvalidCloudType)
        }
    }

    /// Reads a cloud type: `AC`, `ACC`, `ACSL`, `AS`, `CB`, `CBMAM`, `CC`,
    /// `CCSL`, `CI`, `CS`, `CU`, `NS`, `SC`, `SCSL`, `ST`, `TCU` or `TU`.
    pub fn from_str(s: &str) -> (r: Result<CloudType, DecodeError>)
        ensures
            r == token_result(CloudType::of_token(s@), DecodeError::InvalidCloudType),
    {
        let token = chars_of(s);
        CloudType::from_chars(token.as_slice())
    }
}

/// Cloud layer.
#[derive(Clone, Copy, Debug, PartialEq, Eq, Structural)]
pub struct CloudLayer {
    pub cover: Option<CloudCover>,
    /// Height above the ground level (AGL).
    pub height: Option<Quantity>,
    pub cloud_type: Option<CloudType>,
}

impl CloudLayer {
    /// Whether nothing is reported.
    pub open spec fn empty(&self) -> bool {
        self.cover is None && self.height is None && self.cloud_type is None
    }

    #[verifier::when_used_as_spec(empty)]
    pub fn is_empty(&self) -> (r: bool)
        ensures
            r == self.empty(),
    {
        self.cover.is_none() && self.height.is_none() && self.cloud_type.is_none()
    }

    /// The layer that stands for `CAVOK`: no cloud of operational significance.
    pub open spec fn ceiling_ok() -> CloudLayer {
        CloudLayer { cover: Some(CloudCover::CeilingOk), height: None, cloud_type: None }
    }
}

/// The length of the cover at `p`: that of a cover's code, or three for
/// `///`; zero if no cover stands there.
pub open spec fn cover_len(s: Seq<char>, p: int) -> int {
    match CloudCover::at(s, p) {
        Some(cover) => cover.code_len(),
        None => if three_at(s, p, '/', '/', '/') {
            3
        } else {
            0
        },
    }
}

/// The length of the height at `p`: one to three digits or `///`; zero if
/// none of them stands there.
pub open spec fn height_len(s: Seq<char>, p: int) -> int {
    if three_at(s, p, '/', '/', '/') || digits_at(s, p, 3) {
        3
    } else if digits_at(s, p, 2) {
        2
    } else if digits_at(s, p, 1) {
        1
    } else {
        0
    }
}

/// The cloud layer at `at`.
///
/// A cover (`CLR`, `SKC`, `NSC`, `NCD`, `FEW`, `SCT`, `BKN`, `OVC`, `VV` or
/// `///`); optionally the height in hundreds of feet as one to three digits,
/// or `///`; then up to the next blank a cloud type, `///` or nothing. `///`
/// leaves its field unreported, and the height is given in feet.
#[verifier::opaque]
pub open spec fn cloud_group(s: Seq<char>, at: int) -> Option<(CloudLayer, usize)> {
    let c = cover_len(s, at);
    let h = height_len(s, at + c);
    let q = at + c + h;
    let k = find_char(s, ' ', q);
    let kind = s.subrange(q, k);
    if c == 0 || k >= s.len() {
        None
    } else if !(kind.len() == 0 || word3(kind, '/', '/', '/') || CloudType::of_token(kind)
        is Some) {
        None
    } else {
        Some(
            (
                CloudLayer {
                    cover: CloudCover::at(s, at),
                    height: if h > 0 && char_at(s, at + c) != '/' {
                        Some(Quantity::exact(decimal(s, at + c, h as nat) * 100, Unit::Foot))
                    } else {
                        None
                    },
                    cloud_type: CloudType::of_token(kind),
                },
                (k + 1 - at) as usize,
            ),
        )
    }
}

/// Matches a cloud layer at `at`.
pub fn cloud_layer_at(text: &[char], at: usize) -> (r: Option<(CloudLayer, usize)>)
    requires
        at <= text.len(),
    ensures
        r == cloud_group(text@, at as int),
        advances(r, at, text@.len()),
{
    reveal(cloud_group);
    let cover = CloudCover::read(text, at);
    let c: usize = match cover {
        Some(CloudCover::VerticalVisibility) => 2,
        Some(_) => 3,
        None => {
            if !has_three(text, at, '/', '/', '/') {
                return None;
            }
            3
        },
    };
    let p = at + c;
    let h: usize = if has_three(text, p, '/', '/', '/') || has_digits(text, p, 3) {
        3
    } else if has_digits(text, p, 2) {
        2
    } else if has_digits(text, p, 1) {
        1
    } else {
        0
    };
    let q = p + h;
    let k = find(text, ' ', q);
    if k >= text.len() {
        return None;
    }
    let kind = slice_subrange(text, q, k);
    let cloud_type = match CloudType::from_chars(kind) {
        Ok(t) => Some(t),
        Err(_) => {
            if !(kind.len() == 0 || is_word3(kind, '/', '/', '/')) {
                return None;
            }
            None
        },
    };
    let height = if h > 0 && text[p] != '/' {
        let v = read_digits(text, p, h);
        Some(
            Quantity {
                value: Value::Exact(Number::from_integer((v as i64) * 100)),
                units: Unit::Foot,
            },
        )
    } else {
        None
    };
    Some((CloudLayer { cover, height, cloud_type }, k + 1 - at))
}

/// Matches a cloud layer at the start of `text`.
pub fn handle_cloud_layer(text: &str) -> (r: Option<(CloudLayer, usize)>)
    ensures
        r == cloud_group(text@, 0),
        advances(r, 0, text@.len()),
{
    let chars = chars_of(text);
    cloud_layer_at(chars.as_slice(), 0)
}

} // verus!
