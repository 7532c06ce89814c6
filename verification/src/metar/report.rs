//! The decoded report and the changes that its trend forecasts announce.

use crate::metar::ceiling::Ceiling;
use crate::metar::cloud::CloudLayer;
use crate::metar::header::{Header, HeaderView};
use crate::metar::pressure::Pressure;
use crate::metar::runway::{RunwayVisualRange, RunwayVisualRangeView};
use crate::metar::sea::Sea;
use crate::metar::section::Trend;
use crate::metar::temperature::Temperature;
use crate::metar::time::MetarTime;
use crate::metar::visibility::{Visibility, VisibilityView};
use crate::metar::weather::{WeatherCondition, WeatherConditionView};
use crate::metar::wind::Wind;
use crate::metar::wind_shear::{WindShear, WindShearView};
use vstd::prelude::*;

verus! {

/// Significant changes in the meteorological conditions in the TREND forecast.
///
/// Only elements for which a significant change is expected are reported.
#[derive(Clone, Debug, PartialEq, Eq)]
pub struct TrendChange {
    pub indicator: Trend,
    pub from_time: Option<MetarTime>,
    pub to_time: Option<MetarTime>,
    pub at_time: Option<MetarTime>,
    /// Surface wind groups.
    pub wind: Wind,
    /// Visibility groups.
    pub visibility: Visibility,
    pub weather: Vec<WeatherCondition>,
    pub clouds: Vec<CloudLayer>,
}

/// What a [`TrendChange`] holds.
pub struct TrendChangeView {
    pub indicator: Trend,
    pub from_time: Option<MetarTime>,
    pub to_time: Option<MetarTime>,
    pub at_time: Option<MetarTime>,
    pub wind: Wind,
    pub visibility: VisibilityView,
    pub weather: Seq<WeatherConditionView>,
    pub clouds: Seq<CloudLayer>,
}

/// What each of the weather conditions holds.
pub open spec fn weather_views(list: Seq<WeatherCondition>) -> Seq<WeatherConditionView> {
    Seq::new(list.len(), |i: int| list[i]@)
}

impl View for TrendChange {
    type V = TrendChangeView;

    open spec fn view(&self) -> TrendChangeView {
        TrendChangeView {
            indicator: self.indicator,
            from_time: self.from_time,
            to_time: self.to_time,
            at_time: self.at_time,
            wind: self.wind,
            visibility: self.visibility@,
            weather: weather_views(self.weather@),
            clouds: self.clouds@,
        }
    }
}

impl TrendChangeView {
    /// A change of which nothing is known but its indicator.
    pub open spec fn new(indicator: Trend) -> TrendChangeView {
        TrendChangeView {
            indicator,
            from_time: None,
            to_time: None,
            at_time: None,
            wind: Wind {
                wind_from_direction: None,
                wind_from_direction_range: None,
                wind_speed: None,
                wind_gust: None,
            },
            visibility: VisibilityView {
                prevailing_visibility: None,
                minimum_visibility: None,
                directional_visibilites: Seq::empty(),
            },
            weather: Seq::empty(),
            clouds: Seq::empty(),
        }
    }
}

impl TrendChange {
    /// A change of which nothing is known but its indicator.
    pub fn new(indicator: Trend) -> (r: TrendChange)
        ensures
            r@ == TrendChangeView::new(indicator),
    {
        let r = TrendChange {
            indicator,
            from_time: None,
            to_time: None,
            at_time: None,
            wind: Wind::default(),
            visibility: Visibility::default(),
            weather: Vec::new(),
            clouds: Vec::new(),
        };
        assert(r@.weather =~= Seq::empty());
        assert(r@.visibility.directional_visibilites =~= Seq::empty());
        r
    }
}

impl Default for TrendChange {
    fn default() -> (r: TrendChange)
        ensures
            r@ == TrendChangeView::new(Trend::NoSignificantChange),
    {
        TrendChange::new(Trend::NoSignificantChange)
    }
}

/// Decoded METAR report.
#[derive(Clone, Debug, PartialEq, Eq)]
pub struct Metar {
    /// Identification groups.
    pub header: Header,
    /// Surface wind groups.
    pub wind: Wind,
    /// Visibility groups.
    pub visibility: Visibility,
    pub runway_visual_ranges: Vec<RunwayVisualRange>,
    pub present_weather: Vec<WeatherCondition>,
    pub clouds: Vec<CloudLayer>,
    /// Temperature groups.
    pub temperature: Temperature,
    /// Pressure group.
    pub pressure: Pressure,
    pub recent_weather: Vec<WeatherCondition>,
    pub wind_shears: Vec<WindShear>,
    /// Sea groups.
    pub sea: Sea,
    pub trend_changes: Vec<TrendChange>,
    /// The ceiling that the cloud layers give.
    pub ceiling: Option<Ceiling>,
    /// The text that was decoded, cleaned.
    pub report: String,
}

/// What a [`Metar`] holds.
pub struct MetarView {
    pub header: HeaderView,
    pub wind: Wind,
    pub visibility: VisibilityView,
    pub runway_visual_ranges: Seq<RunwayVisualRangeView>,
    pub present_weather: Seq<WeatherConditionView>,
    pub clouds: Seq<CloudLayer>,
    pub temperature: Temperature,
    pub pressure: Pressure,
    pub recent_weather: Seq<WeatherConditionView>,
    pub wind_shears: Seq<WindShearView>,
    pub sea: Sea,
    pub trend_changes: Seq<TrendChangeView>,
    pub ceiling: Option<Ceiling>,
    pub report: Seq<char>,
}

/// What each of the runway visual ranges holds.
pub open spec fn range_views(list: Seq<RunwayVisualRange>) -> Seq<RunwayVisualRangeView> {
    Seq::new(list.len(), |i: int| list[i]@)
}

/// What each of the wind shears holds.
pub open spec fn shear_views(list: Seq<WindShear>) -> Seq<WindShearView> {
    Seq::new(list.len(), |i: int| list[i]@)
}

/// What each of the trend changes holds.
pub open spec fn change_views(list: Seq<TrendChange>) -> Seq<TrendChangeView> {
    Seq::new(list.len(), |i: int| list[i]@)
}

impl View for Metar {
    type V = MetarView;

    open spec fn view(&self) -> MetarView {
        MetarView {
            header: self.header@,
            wind: self.wind,
            visibility: self.visibility@,
            runway_visual_ranges: range_views(self.runway_visual_ranges@),
            present_weather: weather_views(self.present_weather@),
            clouds: self.clouds@,
            temperature: self.temperature,
            pressure: self.pressure,
            recent_weather: weather_views(self.recent_weather@),
            wind_shears: shear_views(self.wind_shears@),
            sea: self.sea,
            trend_changes: change_views(self.trend_changes@),
            ceiling: self.ceiling,
            report: self.report@,
        }
    }
}

impl MetarView {
    /// A report of which nothing is known but its text.
    pub open spec fn new(report: Seq<char>) -> MetarView {
        MetarView {
            header: HeaderView {
                station_id: None,
                observation_time: None,
                is_corrected: None,
                is_automated: None,
            },
            wind: Wind {
                wind_from_direction: None,
                wind_from_direction_range: None,
                wind_speed: None,
                wind_gust: None,
            },
            visibility: VisibilityView {
                prevailing_visibility: None,
                minimum_visibility: None,
                directional_visibilites: Seq::empty(),
            },
            runway_visual_ranges: Seq::empty(),
            present_weather: Seq::empty(),
            clouds: Seq::empty(),
            temperature: Temperature { temperature: None, dew_point: None },
            pressure: Pressure { pressure: None },
            recent_weather: Seq::empty(),
            wind_shears: Seq::empty(),
            sea: Sea { sea_temperature: None, sea_state: None, wave_height: None },
            trend_changes: Seq::empty(),
            ceiling: None,
            report,
        }
    }
}

impl Metar {
    /// A report of which nothing is known but its text.
    pub fn new(report: String) -> (r: Metar)
        ensures
            r@ == MetarView::new(report@),
    {
        let r = Metar {
            header: Header::default(),
            wind: Wind::default(),
            visibility: Visibility::default(),
            runway_visual_ranges: Vec::new(),
            present_weather: Vec::new(),
            clouds: Vec::new(),
            temperature: Temperature::default(),
            pressure: Pressure::default(),
            recent_weather: Vec::new(),
            wind_shears: Vec::new(),
            sea: Sea::default(),
            trend_changes: Vec::new(),
            ceiling: None,
            report,
        };
        assert(r@.runway_visual_ranges =~= Seq::empty());
        assert(r@.present_weather =~= Seq::empty());
        assert(r@.recent_weather =~= Seq::empty());
        assert(r@.wind_shears =~= Seq::empty());
        assert(r@.trend_changes =~= Seq::empty());
        assert(r@.visibility.directional_visibilites =~= Seq::empty());
        r
    }
}

impl Default for Metar {
    fn default() -> (r: Metar)
        ensures
            r@ == MetarView::new(Seq::empty()),
    {
        Metar::new(String::new())
    }
}

} // verus!
