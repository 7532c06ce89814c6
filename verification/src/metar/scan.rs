//! The walk over a cleaned report.
//!
//! The decoder stands at a position in the text and asks the rules of the
//! section it is in, in a fixed order, whether one of them matches there. The
//! first that does says what the group reports and how far to move on. If
//! none does, the characters up to the next blank are passed over and noted.

use crate::datetime::CivilDateTime;
use crate::error::DecodeError;
use crate::metar::ceiling::{ceiling_of, derive_ceiling};
use crate::metar::cloud::{cloud_group, cloud_layer_at, CloudCover, CloudLayer};
use crate::metar::header::{header_at, header_group};
use crate::metar::pressure::{pressure_at, pressure_group};
use crate::metar::report::{
    change_views, range_views, shear_views, weather_views, Metar, MetarView, TrendChange,
    TrendChangeView,
};
use crate::metar::runway::{
    runway_visual_range_at, runway_visual_range_group, RunwayVisualRange,
};
use crate::metar::sea::{sea_at, sea_group};
use crate::metar::section::{section_at, section_group, Section, Trend};
use crate::metar::state::{
    colour_at, colour_group, rainfall_at, rainfall_group, runway_state_at, runway_state_group,
};
use crate::metar::temperature::{temperature_at, temperature_group};
use crate::metar::trend::{trend_time_at, trend_time_group, TrendTimeIndicator};
use crate::metar::visibility::{visibility_at, visibility_group};
use crate::metar::weather::{
    recent_weather_at, recent_weather_group, weather_at, weather_group, WeatherCondition,
};
use crate::metar::wind::{wind_at, wind_group};
use crate::metar::wind_shear::{wind_shear_at, wind_shear_group, WindShear};
use crate::text::{copy_range, find, find_char, string_of};
use vstd::prelude::*;

verus! {

/// The section that the decoder is in, with the change that a trend forecast
/// has announced so far.
pub enum Stage {
    Main,
    Trend(TrendChangeView),
    Remark,
}

/// The state of the walk: the section, what has been decoded, and the
/// groups that no rule knew.
pub struct Scan {
    pub stage: Stage,
    pub metar: MetarView,
    pub unparsed: Seq<Seq<char>>,
}

impl Scan {
    /// The state before the first group of a report with the text `report`.
    pub open spec fn start(report: Seq<char>) -> Scan {
        Scan { stage: Stage::Main, metar: MetarView::new(report), unparsed: Seq::empty() }
    }

    /// What has been decoded, with the change of an open trend forecast added
    /// to the list of changes.
    pub open spec fn closed(self) -> MetarView {
        match self.stage {
            Stage::Trend(change) => MetarView {
                trend_changes: self.metar.trend_changes.push(change),
                ..self.metar
            },
            _ => self.metar,
        }
    }

    /// The state after a section marker: an open trend forecast is closed, and
    /// a trend indicator opens a new one.
    pub open spec fn enter(self, section: Section) -> Scan {
        Scan {
            stage: match section {
                Section::Main => Stage::Main,
                Section::Trend(indicator) => Stage::Trend(TrendChangeView::new(indicator)),
                Section::Remark => Stage::Remark,
            },
            metar: self.closed(),
            unparsed: self.unparsed,
        }
    }

    /// The report at the end of the walk: an open trend forecast is closed and
    /// the ceiling is derived from the cloud layers.
    pub open spec fn finish(self) -> MetarView {
        MetarView { ceiling: ceiling_of(self.metar.clouds), ..self.closed() }
    }
}

/// The clouds after a cloud group: a layer that reports nothing is dropped.
pub open spec fn with_layer(clouds: Seq<CloudLayer>, layer: CloudLayer) -> Seq<CloudLayer> {
    if layer.empty() {
        clouds
    } else {
        clouds.push(layer)
    }
}

/// The clouds after a visibility group: `CAVOK` adds a layer of its own.
pub open spec fn with_cavok(clouds: Seq<CloudLayer>, cavok: bool) -> Seq<CloudLayer> {
    if cavok {
        clouds.push(CloudLayer::ceiling_ok())
    } else {
        clouds
    }
}

/// Whether a rule that can fail has matched or failed, and so decides the
/// step.
pub open spec fn decides<T>(r: Result<Option<T>, DecodeError>) -> bool {
    match r {
        Ok(None) => false,
        _ => true,
    }
}

/// What the rules of the main section make of the text at `at`.
///
/// The rules are asked in this order, and the first that matches decides:
/// header, wind and visibility, each only while the report has none; present
/// weather; runway visual range; cloud layer; temperature and pressure, each
/// only while the report has none; recent weather; wind shear; sea, only
/// while the report has none; colour state, rainfall and runway state, which
/// are passed over. A temperature or sea group that reports nothing is passed
/// over too. Gives the report and the characters taken, nothing if no rule
/// matches, and the error of a header or visibility group that cannot be
/// read.
pub open spec fn main_step(s: Seq<char>, at: int, m: MetarView, anchor: Option<CivilDateTime>)
    -> Result<Option<(MetarView, usize)>, DecodeError> {
    if m.header.empty() && decides(header_group(s, at, anchor)) {
        match header_group(s, at, anchor) {
            Ok(Some((header, n))) => Ok(Some((MetarView { header, ..m }, n))),
            Ok(None) => Ok(None),
            Err(e) => Err(e),
        }
    } else if m.wind.empty() && wind_group(s, at) is Some {
        let (wind, n) = wind_group(s, at)->0;
        Ok(Some((MetarView { wind, ..m }, n)))
    } else if m.visibility.empty() && decides(visibility_group(s, at)) {
        match visibility_group(s, at) {
            Ok(Some((visibility, cavok, n))) => Ok(
                Some((MetarView { visibility, clouds: with_cavok(m.clouds, cavok), ..m }, n)),
            ),
            Ok(None) => Ok(None),
            Err(e) => Err(e),
        }
    } else if weather_group(s, at) is Some {
        let (weather, n) = weather_group(s, at)->0;
        Ok(Some((MetarView { present_weather: m.present_weather.push(weather), ..m }, n)))
    } else if runway_visual_range_group(s, at) is Some {
        let (range, n) = runway_visual_range_group(s, at)->0;
        Ok(Some((MetarView { runway_visual_ranges: m.runway_visual_ranges.push(range), ..m }, n)))
    } else if cloud_group(s, at) is Some {
        let (layer, n) = cloud_group(s, at)->0;
        Ok(Some((MetarView { clouds: with_layer(m.clouds, layer), ..m }, n)))
    } else if m.temperature.empty() && temperature_group(s, at) is Some {
        let (temperature, n) = temperature_group(s, at)->0;
        Ok(Some((MetarView { temperature, ..m }, n)))
    } else if m.pressure.empty() && pressure_group(s, at) is Some {
        let (pressure, n) = pressure_group(s, at)->0;
        Ok(Some((MetarView { pressure, ..m }, n)))
    } else if recent_weather_group(s, at) is Some {
        let (weather, n) = recent_weather_group(s, at)->0;
        Ok(Some((MetarView { recent_weather: m.recent_weather.push(weather), ..m }, n)))
    } else if wind_shear_group(s, at) is Some {
        let (shear, n) = wind_shear_group(s, at)->0;
        Ok(Some((MetarView { wind_shears: m.wind_shears.push(shear), ..m }, n)))
    } else if m.sea.empty() && sea_group(s, at) is Some {
        let (sea, n) = sea_group(s, at)->0;
        Ok(Some((MetarView { sea, ..m }, n)))
    } else if colour_group(s, at) is Some {
        Ok(Some((m, colour_group(s, at)->0)))
    } else if rainfall_group(s, at) is Some {
        Ok(Some((m, rainfall_group(s, at)->0)))
    } else if runway_state_group(s, at) is Some {
        Ok(Some((m, runway_state_group(s, at)->0)))
    } else {
        Ok(None)
    }
}

/// What the rules of a trend forecast make of the text at `at`.
///
/// The rules are asked in this order, and the first that matches decides:
/// trend time; wind and visibility, each only while the change has none;
/// weather; cloud layer. Gives the change and the characters taken, nothing
/// if no rule matches, and the error of a visibility group that cannot be
/// read.
pub open spec fn trend_step(
    s: Seq<char>,
    at: int,
    t: TrendChangeView,
    anchor: Option<CivilDateTime>,
) -> Result<Option<(TrendChangeView, usize)>, DecodeError> {
    if trend_time_group(s, at, anchor) is Some {
        let (time, n) = trend_time_group(s, at, anchor)->0;
        Ok(
            Some(
                (
                    match time.indicator {
                        TrendTimeIndicator::From => TrendChangeView { from_time: time.time, ..t },
                        TrendTimeIndicator::Until => TrendChangeView { to_time: time.time, ..t },
                        TrendTimeIndicator::At => TrendChangeView { at_time: time.time, ..t },
                    },
                    n,
                ),
            ),
        )
    } else if t.wind.empty() && wind_group(s, at) is Some {
        let (wind, n) = wind_group(s, at)->0;
        Ok(Some((TrendChangeView { wind, ..t }, n)))
    } else if t.visibility.empty() && decides(visibility_group(s, at)) {
        match visibility_group(s, at) {
            Ok(Some((visibility, cavok, n))) => Ok(
                Some((TrendChangeView { visibility, clouds: with_cavok(t.clouds, cavok), ..t }, n)),
            ),
            Ok(None) => Ok(None),
            Err(e) => Err(e),
        }
    } else if weather_group(s, at) is Some {
        let (weather, n) = weather_group(s, at)->0;
        Ok(Some((TrendChangeView { weather: t.weather.push(weather), ..t }, n)))
    } else if cloud_group(s, at) is Some {
        let (layer, n) = cloud_group(s, at)->0;
        Ok(Some((TrendChangeView { clouds: with_layer(t.clouds, layer), ..t }, n)))
    } else {
        Ok(None)
    }
}

/// Whether a group that no rule knew is worth noting: it is, unless it is
/// made of `/` alone.
pub open spec fn worth_noting(token: Seq<char>) -> bool {
    exists|i: int| 0 <= i < token.len() && token[i] != '/'
}

/// The state after the characters from `at` up to the next blank, or up to
/// the end, have been passed over, and the characters taken. The blank is
/// taken too.
pub open spec fn pass_over(s: Seq<char>, at: int, st: Scan) -> (Scan, usize) {
    let k = find_char(s, ' ', at);
    let token = s.subrange(at, k);
    (
        Scan {
            unparsed: if worth_noting(token) {
                st.unparsed.push(token)
            } else {
                st.unparsed
            },
            ..st
        },
        if k < s.len() {
            (k + 1 - at) as usize
        } else {
            (k - at) as usize
        },
    )
}

/// One step of the walk from position `at` in state `st`: the state after
/// it and the characters taken.
///
/// A section marker changes the section, whatever the section is. Else the
/// rules of the section are asked: [`main_step`] in the main section,
/// [`trend_step`] in a trend forecast, none in the remarks. If no rule matches,
/// the text up to the next blank is passed over.
#[verifier::opaque]
pub open spec fn step(s: Seq<char>, at: int, st: Scan, anchor: Option<CivilDateTime>) -> Result<
    (Scan, usize),
    DecodeError,
> {
    match section_group(s, at) {
        Some((section, n)) => Ok((st.enter(section), n)),
        None => match st.stage {
            Stage::Main => match main_step(s, at, st.metar, anchor) {
                Ok(Some((metar, n))) => Ok((Scan { metar, ..st }, n)),
                Ok(None) => Ok(pass_over(s, at, st)),
                Err(e) => Err(e),
            },
            Stage::Trend(change) => match trend_step(s, at, change, anchor) {
                Ok(Some((next, n))) => Ok((Scan { stage: Stage::Trend(next), ..st }, n)),
                Ok(None) => Ok(pass_over(s, at, st)),
                Err(e) => Err(e),
            },
            Stage::Remark => Ok(pass_over(s, at, st)),
        },
    }
}

/// The state at the end of the walk that starts at `at` in state `st`, or
/// the first error on the way.
pub open spec fn walk(s: Seq<char>, at: int, st: Scan, anchor: Option<CivilDateTime>) -> Result<
    Scan,
    DecodeError,
>
    decreases s.len() - at,
{
    if 0 <= at < s.len() {
        match step(s, at, st, anchor) {
            Ok((next, n)) => if 0 < n && at + n <= s.len() {
                walk(s, at + n, next, anchor)
            } else {
                Ok(next)
            },
            Err(e) => Err(e),
        }
    } else {
        Ok(st)
    }
}

/// The characters of each string.
pub open spec fn texts(list: Seq<String>) -> Seq<Seq<char>> {
    Seq::new(list.len(), |i: int| list[i]@)
}

/// The walk in progress.
pub struct Scanner {
    pub section: Section,
    /// The change that the open trend forecast announces. It counts only
    /// while the section is a trend forecast.
    pub change: TrendChange,
    pub metar: Metar,
    pub unparsed: Vec<String>,
}

impl View for Scanner {
    type V = Scan;

    open spec fn view(&self) -> Scan {
        Scan {
            stage: match self.section {
                Section::Main => Stage::Main,
                Section::Trend(_) => Stage::Trend(self.change@),
                Section::Remark => Stage::Remark,
            },
            metar: self.metar@,
            unparsed: texts(self.unparsed@),
        }
    }
}

fn push_weather(list: &mut Vec<WeatherCondition>, weather: WeatherCondition)
    ensures
        weather_views(final(list)@) == weather_views(old(list)@).push(weather@),
{
    list.push(weather);
    assert(weather_views(list@) =~= weather_views(old(list)@).push(weather@));
}

fn push_range(list: &mut Vec<RunwayVisualRange>, range: RunwayVisualRange)
    ensures
        range_views(final(list)@) == range_views(old(list)@).push(range@),
{
    list.push(range);
    assert(range_views(list@) =~= range_views(old(list)@).push(range@));
}

fn push_shear(list: &mut Vec<WindShear>, shear: WindShear)
    ensures
        shear_views(final(list)@) == shear_views(old(list)@).push(shear@),
{
    list.push(shear);
    assert(shear_views(list@) =~= shear_views(old(list)@).push(shear@));
}

fn push_change(list: &mut Vec<TrendChange>, change: TrendChange)
    ensures
        change_views(final(list)@) == change_views(old(list)@).push(change@),
{
    list.push(change);
    assert(change_views(list@) =~= change_views(old(list)@).push(change@));
}

fn push_text(list: &mut Vec<String>, text: String)
    ensures
        texts(final(list)@) == texts(old(list)@).push(text@),
{
    list.push(text);
    assert(texts(list@) =~= texts(old(list)@).push(text@));
}

fn push_layer(clouds: &mut Vec<CloudLayer>, layer: CloudLayer)
    ensures
        final(clouds)@ == with_layer(old(clouds)@, layer),
{
    if !layer.is_empty() {
        clouds.push(layer);
    }
}

fn push_cavok(clouds: &mut Vec<CloudLayer>, cavok: bool)
    ensures
        final(clouds)@ == with_cavok(old(clouds)@, cavok),
{
    if cavok {
        clouds.push(
            CloudLayer { cover: Some(CloudCover::CeilingOk), height: None, cloud_type: None },
        );
    }
}

/// Whether the outcome `r` of a step that left the report as `after` is the
/// outcome `expected`. After an error the report may be anything.
pub open spec fn is_outcome<V>(
    r: Result<Option<usize>, DecodeError>,
    before: V,
    after: V,
    expected: Result<Option<(V, usize)>, DecodeError>,
    at: usize,
    len: nat,
) -> bool {
    match expected {
        Ok(Some((next, n))) => r == Ok::<_, DecodeError>(Some(n)) && after == next && 0 < n && at
            + n <= len,
        Ok(None) => r == Ok::<_, DecodeError>(None::<usize>) && after == before,
        Err(e) => r == Err::<Option<usize>, _>(e),
    }
}

/// Asks the rules of the main section at `at`.
pub fn main_rules(
    metar: &mut Metar,
    text: &[char],
    at: usize,
    anchor_time: Option<CivilDateTime>,
) -> (r: Result<Option<usize>, DecodeError>)
    requires
        at <= text.len(),
        anchor_time is Some ==> anchor_time->0.can_anchor(),
    ensures
        is_outcome(
            r,
            old(metar)@,
            final(metar)@,
            main_step(text@, at as int, old(metar)@, anchor_time),
            at,
            text@.len(),
        ),
{
    if metar.header.is_empty() {
        match header_at(text, at, anchor_time) {
            Ok(Some((header, n))) => {
                metar.header = header;
                return Ok(Some(n));
            },
            Ok(None) => {},
            Err(e) => {
                return Err(e);
            },
        }
    }
    if metar.wind.is_empty() {
        match wind_at(text, at) {
            Some((wind, n)) => {
                metar.wind = wind;
                return Ok(Some(n));
            },
            None => {},
        }
    }
    if metar.visibility.is_empty() {
        match visibility_at(text, at) {
            Ok(Some((visibility, cavok, n))) => {
                metar.visibility = visibility;
                push_cavok(&mut metar.clouds, cavok);
                return Ok(Some(n));
            },
            Ok(None) => {},
            Err(e) => {
                return Err(e);
            },
        }
    }
    match weather_at(text, at) {
        Some((weather, n)) => {
            push_weather(&mut metar.present_weather, weather);
            return Ok(Some(n));
        },
        None => {},
    }
    match runway_visual_range_at(text, at) {
        Some((range, n)) => {
            push_range(&mut metar.runway_visual_ranges, range);
            return Ok(Some(n));
        },
        None => {},
    }
    match cloud_layer_at(text, at) {
        Some((layer, n)) => {
            push_layer(&mut metar.clouds, layer);
            return Ok(Some(n));
        },
        None => {},
    }
    if metar.temperature.is_empty() {
        match temperature_at(text, at) {
            Some((temperature, n)) => {
                if !temperature.is_empty() {
                    metar.temperature = temperature;
                }
                return Ok(Some(n));
            },
            None => {},
        }
    }
    if metar.pressure.is_empty() {
        match pressure_at(text, at) {
            Some((pressure, n)) => {
                metar.pressure = pressure;
                return Ok(Some(n));
            },
            None => {},
        }
    }
    match recent_weather_at(text, at) {
        Some((weather, n)) => {
            push_weather(&mut metar.recent_weather, weather);
            return Ok(Some(n));
        },
        None => {},
    }
    match wind_shear_at(text, at) {
        Some((shear, n)) => {
            push_shear(&mut metar.wind_shears, shear);
            return Ok(Some(n));
        },
        None => {},
    }
    if metar.sea.is_empty() {
        match sea_at(text, at) {
            Some((sea, n)) => {
                if !sea.is_empty() {
                    metar.sea = sea;
                }
                return Ok(Some(n));
            },
            None => {},
        }
    }
    match colour_at(text, at) {
        Some(n) => {
            return Ok(Some(n));
        },
        None => {},
    }
    match rainfall_at(text, at) {
        Some(n) => {
            return Ok(Some(n));
        },
        None => {},
    }
    match runway_state_at(text, at) {
        Some(n) => {
            return Ok(Some(n));
        },
        None => {},
    }
    Ok(None)
}

/// Asks the rules of a trend forecast at `at`.
pub fn trend_rules(
    change: &mut TrendChange,
    text: &[char],
    at: usize,
    anchor_time: Option<CivilDateTime>,
) -> (r: Result<Option<usize>, DecodeError>)
    requires
        at <= text.len(),
        anchor_time is Some ==> anchor_time->0.can_anchor(),
    ensures
        is_outcome(
            r,
            old(change)@,
            final(change)@,
            trend_step(text@, at as int, old(change)@, anchor_time),
            at,
            text@.len(),
        ),
{
    match trend_time_at(text, at, anchor_time) {
        Some((time, n)) => {
            match time.indicator {
                TrendTimeIndicator::From => {
                    change.from_time = time.time;
                },
                TrendTimeIndicator::Until => {
                    change.to_time = time.time;
                },
                TrendTimeIndicator::At => {
                    change.at_time = time.time;
                },
            }
            return Ok(Some(n));
        },
        None => {},
    }
    if change.wind.is_empty() {
        match wind_at(text, at) {
            Some((wind, n)) => {
                change.wind = wind;
                return Ok(Some(n));
            },
            None => {},
        }
    }
    if change.visibility.is_empty() {
        match visibility_at(text, at) {
            Ok(Some((visibility, cavok, n))) => {
                change.visibility = visibility;
                push_cavok(&mut change.clouds, cavok);
                return Ok(Some(n));
            },
            Ok(None) => {},
            Err(e) => {
                return Err(e);
            },
        }
    }
    match weather_at(text, at) {
        Some((weather, n)) => {
            push_weather(&mut change.weather, weather);
            return Ok(Some(n));
        },
        None => {},
    }
    match cloud_layer_at(text, at) {
        Some((layer, n)) => {
            push_layer(&mut change.clouds, layer);
            return Ok(Some(n));
        },
        None => {},
    }
    Ok(None)
}

impl Scanner {
    /// The walk before the first group of a report with the text `report`.
    pub fn new(report: String) -> (r: Scanner)
        ensures
            r@ == Scan::start(report@),
    {
        let r = Scanner {
            section: Section::Main,
            change: TrendChange::default(),
            metar: Metar::new(report),
            unparsed: Vec::new(),
        };
        assert(r@.unparsed =~= Seq::empty());
        r
    }

    /// Closes an open trend forecast.
    fn close(&mut self)
        ensures
            final(self).metar@ == old(self)@.closed(),
            final(self).section == old(self).section,
            final(self).unparsed == old(self).unparsed,
    {
        let open = match self.section {
            Section::Trend(_) => true,
            _ => false,
        };
        if open {
            let mut change = TrendChange::default();
            core::mem::swap(&mut self.change, &mut change);
            push_change(&mut self.metar.trend_changes, change);
        }
    }

    /// Changes the section.
    fn enter(&mut self, section: Section)
        ensures
            final(self)@ == old(self)@.enter(section),
    {
        self.close();
        match section {
            Section::Trend(indicator) => {
                self.change = TrendChange::new(indicator);
            },
            _ => {},
        }
        self.section = section;
    }

    /// Passes over the characters from `at` up to the next blank.
    fn pass_over(&mut self, text: &[char], at: usize) -> (n: usize)
        requires
            at < text.len(),
        ensures
            (final(self)@, n) == pass_over(text@, at as int, old(self)@),
            0 < n,
            at + n <= text.len(),
    {
        let k = find(text, ' ', at);
        let mut noted = false;
        let mut i: usize = at;
        while i < k
            invariant
                at <= i <= k <= text.len(),
                noted == exists|j: int| 0 <= j < i - at && text@.subrange(at as int, k as int)[j] != '/',
            decreases k - i,
        {
            if text[i] != '/' {
                assert(text@.subrange(at as int, k as int)[i - at] != '/');
                noted = true;
            }
            i += 1;
        }
        if noted {
            let token = copy_range(text, at, k);
            push_text(&mut self.unparsed, string_of(token.as_slice()));
        }
        if k < text.len() {
            k + 1 - at
        } else {
            k - at
        }
    }

    /// Takes one step of the walk at `at`.
    pub fn step(&mut self, text: &[char], at: usize, anchor_time: Option<CivilDateTime>) -> (r:
        Result<usize, DecodeError>)
        requires
            at < text.len(),
            anchor_time is Some ==> anchor_time->0.can_anchor(),
        ensures
            match step(text@, at as int, old(self)@, anchor_time) {
                Ok((next, n)) => r == Ok::<_, DecodeError>(n) && final(self)@ == next && 0 < n
                    && at + n <= text.len(),
                Err(e) => r == Err::<usize, _>(e),
            },
    {
        reveal(step);
        match section_at(text, at) {
            Some((section, n)) => {
                self.enter(section);
                return Ok(n);
            },
            None => {},
        }
        let found = match self.section {
            Section::Main => main_rules(&mut self.metar, text, at, anchor_time),
            Section::Trend(_) => trend_rules(&mut self.change, text, at, anchor_time),
            Section::Remark => Ok(None),
        };
        match found {
            Ok(Some(n)) => Ok(n),
            Ok(None) => Ok(self.pass_over(text, at)),
            Err(e) => Err(e),
        }
    }

    /// Walks from the start of the text to its end, or to the first error.
    pub fn walk(&mut self, text: &[char], anchor_time: Option<CivilDateTime>) -> (r: Result<
        (),
        DecodeError,
    >)
        requires
            anchor_time is Some ==> anchor_time->0.can_anchor(),
        ensures
            match walk(text@, 0, old(self)@, anchor_time) {
                Ok(last) => r is Ok && final(self)@ == last,
                Err(e) => r == Err::<(), _>(e),
            },
    {
        let mut at: usize = 0;
        while at < text.len()
            invariant
                at <= text.len(),
                anchor_time is Some ==> anchor_time->0.can_anchor(),
                walk(text@, 0, old(self)@, anchor_time) == walk(text@, at as int, self@, anchor_time),
            decreases text.len() - at,
        {
            match self.step(text, at, anchor_time) {
                Ok(n) => {
                    at += n;
                },
                Err(e) => {
                    return Err(e);
                },
            }
        }
        Ok(())
    }

    /// Ends the walk and hands out the report and the groups that no rule
    /// knew.
    pub fn finish(self) -> (r: (Metar, Vec<String>))
        ensures
            r.0@ == self@.finish(),
            texts(r.1@) == self@.unparsed,
    {
        let mut scanner = self;
        scanner.close();
        let ceiling = derive_ceiling(&scanner.metar.clouds);
        scanner.metar.ceiling = ceiling;
        (scanner.metar, scanner.unparsed)
    }
}

} // verus!
