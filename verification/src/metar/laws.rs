//! What holds of every walk over a report.

use crate::datetime::CivilDateTime;
use crate::metar::ceiling::{ceiling_of, Ceiling};
use crate::metar::cloud::CloudLayer;
use crate::metar::header::{header_group, header_layout};
use crate::metar::report::MetarView;
use crate::metar::scan::{step, walk, Scan};
use crate::metar::section::section_group;
use crate::metar::value::{Quantity, Unit, Value};
use crate::metar::visibility::{lemma_cavok_group, units_at};
use crate::metar::wind::{wind_group, wind_layout};
use crate::number::Number;
use crate::text::{char_at, four_at};
use vstd::prelude::*;

verus! {

/// Whether `later` reports what `earlier` reports of each kind of group that
/// a report has once, and lists what `earlier` lists of each kind that may
/// repeat, with more after it or not.
pub open spec fn keeps(earlier: MetarView, later: MetarView) -> bool {
    &&& later.report == earlier.report
    &&& !earlier.header.empty() ==> later.header == earlier.header
    &&& !earlier.wind.empty() ==> later.wind == earlier.wind
    &&& !earlier.visibility.empty() ==> later.visibility == earlier.visibility
    &&& !earlier.temperature.empty() ==> later.temperature == earlier.temperature
    &&& !earlier.pressure.empty() ==> later.pressure == earlier.pressure
    &&& !earlier.sea.empty() ==> later.sea == earlier.sea
    &&& earlier.runway_visual_ranges.is_prefix_of(later.runway_visual_ranges)
    &&& earlier.present_weather.is_prefix_of(later.present_weather)
    &&& earlier.clouds.is_prefix_of(later.clouds)
    &&& earlier.recent_weather.is_prefix_of(later.recent_weather)
    &&& earlier.wind_shears.is_prefix_of(later.wind_shears)
    &&& earlier.trend_changes.is_prefix_of(later.trend_changes)
}

/// A step of the walk keeps what the report holds: the first group of a
/// kind that a report has once stays, lists only grow, and so does the list of
/// groups that no rule knew.
pub proof fn lemma_step_keeps(s: Seq<char>, at: int, st: Scan, anchor: Option<CivilDateTime>)
    requires
        step(s, at, st, anchor) is Ok,
    ensures
        keeps(st.metar, step(s, at, st, anchor)->Ok_0.0.metar),
        st.unparsed.is_prefix_of(step(s, at, st, anchor)->Ok_0.0.unparsed),
{
    reveal(step);
}

/// A walk keeps what the report holds at its start: the first group of a
/// kind that a report has once is the one reported at the end, the lists at
/// the end start with what was listed, and so does the list of groups that
/// no rule knew.
pub proof fn lemma_first_match_wins(
    s: Seq<char>,
    at: int,
    st: Scan,
    anchor: Option<CivilDateTime>,
)
    requires
        walk(s, at, st, anchor) is Ok,
    ensures
        keeps(st.metar, walk(s, at, st, anchor)->Ok_0.metar),
        st.unparsed.is_prefix_of(walk(s, at, st, anchor)->Ok_0.unparsed),
    decreases s.len() - at,
{
    if 0 <= at < s.len() {
        lemma_step_keeps(s, at, st, anchor);
        let (next, n) = step(s, at, st, anchor)->Ok_0;
        if 0 < n && at + n <= s.len() {
            lemma_first_match_wins(s, at + n, next, anchor);
        }
    }
}

/// Once a walk has left the main section it does not come back to it.
pub proof fn lemma_main_section_is_left_for_good(
    s: Seq<char>,
    at: int,
    st: Scan,
    anchor: Option<CivilDateTime>,
)
    requires
        !(st.stage is Main),
        walk(s, at, st, anchor) is Ok,
    ensures
        !(walk(s, at, st, anchor)->Ok_0.stage is Main),
    decreases s.len() - at,
{
    if 0 <= at < s.len() {
        let (next, n) = step(s, at, st, anchor)->Ok_0;
        assert(!(next.stage is Main)) by {
            reveal(step);
            reveal(section_group);
        }
        if 0 < n && at + n <= s.len() {
            lemma_main_section_is_left_for_good(s, at + n, next, anchor);
        }
    }
}

/// In the main section of a report that has no visibility yet, a step at
/// `CAVOK` and a blank, where the unit of another group does not follow,
/// reports a prevailing visibility of more than 10000 metres and adds the
/// cloud layer that stands for `CAVOK`, unless a number in what follows
/// cannot be read. A report whose clouds are this layer alone has an unlimited
/// ceiling.
pub proof fn lemma_cavok_step(s: Seq<char>, at: int, st: Scan, anchor: Option<CivilDateTime>)
    requires
        st.stage is Main,
        st.metar.visibility.empty(),
        char_at(s, at) == 'C',
        four_at(s, at + 1, 'A', 'V', 'O', 'K'),
        char_at(s, at + 5) == ' ',
        !(units_at(s, at + 6) is Some && char_at(s, at + 8) == ' '),
    ensures
        step(s, at, st, anchor) is Ok ==> ({
            let next = step(s, at, st, anchor)->Ok_0.0.metar;
            &&& next.visibility.prevailing_visibility == Some(
                Quantity { value: Value::Above(Number::of_int(10000)), units: Unit::Metre },
            )
            &&& next.clouds == st.metar.clouds.push(CloudLayer::ceiling_ok())
        }),
        ceiling_of(seq![CloudLayer::ceiling_ok()]) == Some(Ceiling::Unlimited),
{
    reveal(step);
    reveal(section_group);
    reveal(header_group);
    reveal(wind_group);
    lemma_cavok_group(s, at);
    assert(header_layout(s, at) is None);
    assert(wind_layout(s, at) is None);
}

} // verus!
