//! Decoding of METAR reports.
//!
//! The decoding is written based on the following publications:
//! - World Meteorological Organization (2022). Aerodrome reports and forecasts: A Users' Handbook
//!   to the Codes. Available: <https://library.wmo.int/idurl/4/30224>.
//! - World Meteorological Organization (2019). Manual on Codes, Volume I.1 - International Codes.
//!   Available: <https://library.wmo.int/idurl/4/35713>.
//! - World Meteorological Organization (2018). Manual on Codes, Volume II - Regional Codes and
//!   National Coding Practices. Available: <https://library.wmo.int/idurl/4/35717>.
//!
//! Each kind of group has a module of its own. It holds the type that the
//! group is decoded into, the shape of the group as a function of the text and a
//! position in it, and the matcher that is proved to return what that function
//! says. [`scan`] puts the matchers in order, [`decode`] holds the entry points,
//! and [`laws`] states what holds of every decoding.

pub mod ceiling;
pub mod clean;
pub mod cloud;
pub mod decode;
pub mod header;
pub mod laws;
pub mod pressure;
pub mod report;
pub mod runway;
pub mod scan;
pub mod sea;
pub mod section;
pub mod state;
pub mod temperature;
pub mod time;
pub mod trend;
pub mod value;
pub mod visibility;
pub mod weather;
pub mod wind;
pub mod wind_shear;

pub use self::ceiling::{derive_ceiling, Ceiling};
pub use self::cloud::{handle_cloud_layer, CloudCover, CloudLayer, CloudType};
pub use self::decode::{decode_folded, decode_metar, decode_report, Decoded};
pub use self::header::{handle_header, Header};
pub use self::pressure::{handle_pressure, Pressure};
pub use self::report::{Metar, TrendChange};
pub use self::runway::{handle_runway_visual_range, RunwayVisualRange, RunwayVisualRangeTrend};
pub use self::sea::{handle_sea, Sea, SeaState};
pub use self::section::{handle_section, Section, Trend};
pub use self::state::{handle_color, handle_rainfall, handle_runway_state};
pub use self::temperature::{handle_temperature, Temperature};
pub use self::time::MetarTime;
pub use self::trend::{handle_trend_time, TrendTime, TrendTimeIndicator};
pub use self::value::{Quantity, Unit, Value, ValueInRange};
pub use self::visibility::{handle_visibility, DirectionOctant, DirectionalVisibility, Visibility};
pub use self::weather::{
    handle_present_weather, handle_recent_weather, WeatherCondition, WeatherDescriptor,
    WeatherIntensity, WeatherPhenomena,
};
pub use self::wind::{handle_wind, Wind};
pub use self::wind_shear::{handle_wind_shear, WindShear};
