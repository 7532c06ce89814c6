use rweather_decoder::datetime::{
    CivilDate, CivilDateTime, CivilTime, UtcDateTime, UtcDayTime, UtcTime,
};
use rweather_decoder::error::DecodeError;
use rweather_decoder::metar::{
    decode_folded, decode_metar, decode_report, Ceiling, CloudCover, CloudLayer, Header, Metar,
    MetarTime, Pressure, Quantity, Temperature, Trend, TrendChange, Unit, Value, Visibility,
    WeatherIntensity, WeatherPhenomena, Wind,
};
use rweather_decoder::number::Number;

fn whole(n: i64) -> Number {
    Number { numerator: n, denominator: 1 }
}

fn exact(n: i64, units: Unit) -> Option<Quantity> {
    Some(Quantity { value: Value::Exact(whole(n)), units })
}

fn above(n: i64, units: Unit) -> Option<Quantity> {
    Some(Quantity { value: Value::Above(whole(n)), units })
}

fn hm(hour: u32, minute: u32) -> CivilTime {
    CivilTime { hour, minute, second: 0 }
}

fn at(year: i32, month: u32, day: u32, hour: u32, minute: u32) -> CivilDateTime {
    CivilDateTime { date: CivilDate { year, month, day }, time: hm(hour, minute) }
}

fn layer(cover: CloudCover, feet: Option<i64>) -> CloudLayer {
    CloudLayer {
        cover: Some(cover),
        height: feet.and_then(|n| exact(n, Unit::Foot)),
        cloud_type: None,
    }
}

#[test]
fn decodes_a_whole_report() {
    let metar = decode_metar("KXYZ 131951Z 18010KT 10SM FEW050 22/18 A3002", None).unwrap();
    let expected = Metar {
        header: Header {
            station_id: Some("KXYZ".to_string()),
            observation_time: Some(MetarTime::DayTime(UtcDayTime(13, hm(19, 51)))),
            is_corrected: Some(false),
            is_automated: Some(false),
        },
        wind: Wind {
            wind_from_direction: exact(180, Unit::DegreeTrue),
            wind_from_direction_range: None,
            wind_speed: exact(10, Unit::Knot),
            wind_gust: None,
        },
        visibility: Visibility {
            prevailing_visibility: exact(10, Unit::StatuteMile),
            minimum_visibility: None,
            directional_visibilites: vec![],
        },
        runway_visual_ranges: vec![],
        present_weather: vec![],
        clouds: vec![layer(CloudCover::Few, Some(5000))],
        temperature: Temperature {
            temperature: exact(22, Unit::DegreeCelsius),
            dew_point: exact(18, Unit::DegreeCelsius),
        },
        pressure: Pressure {
            pressure: Some(Quantity {
                value: Value::Exact(Number { numerator: 3002, denominator: 100 }),
                units: Unit::InchOfMercury,
            }),
        },
        recent_weather: vec![],
        wind_shears: vec![],
        sea: Default::default(),
        trend_changes: vec![],
        ceiling: Some(Ceiling::Unlimited),
        report: "KXYZ 131951Z 18010KT 10SM FEW050 22/18 A3002".to_string(),
    };
    assert_eq!(metar, expected);
}

#[test]
fn anchor_turns_day_and_time_into_a_date() {
    let metar = decode_metar("KXYZ 010000Z 18010KT", Some(at(2023, 5, 31, 12, 0))).unwrap();
    assert_eq!(
        metar.header.observation_time,
        Some(MetarTime::DateTime(UtcDateTime(at(2023, 6, 1, 0, 0))))
    );
    let metar = decode_metar("KXYZ 010000Z 18010KT", Some(at(2023, 5, 10, 12, 0))).unwrap();
    assert_eq!(
        metar.header.observation_time,
        Some(MetarTime::DateTime(UtcDateTime(at(2023, 5, 1, 0, 0))))
    );
}

#[test]
fn cavok_gives_visibility_a_cloud_layer_and_an_unlimited_ceiling() {
    let metar = decode_metar("LFPG 131930Z 24008KT CAVOK 18/12 Q1015 NOSIG", None).unwrap();
    assert_eq!(metar.visibility.prevailing_visibility, above(10000, Unit::Metre));
    assert_eq!(metar.clouds, vec![layer(CloudCover::CeilingOk, None)]);
    assert_eq!(metar.ceiling, Some(Ceiling::Unlimited));
    assert_eq!(metar.pressure.pressure, exact(1015, Unit::HectoPascal));
}

#[test]
fn ceiling_from_the_cloud_groups() {
    let metar = decode_metar("KXYZ 131951Z FEW020 BKN035 OVC050", None).unwrap();
    assert_eq!(
        metar.clouds,
        vec![
            layer(CloudCover::Few, Some(2000)),
            layer(CloudCover::Broken, Some(3500)),
            layer(CloudCover::Overcast, Some(5000)),
        ]
    );
    assert_eq!(
        metar.ceiling,
        Some(Ceiling::Height(Quantity { value: Value::Exact(whole(3500)), units: Unit::Foot }))
    );
    let metar = decode_metar("KXYZ 131951Z FEW020 SCT040", None).unwrap();
    assert_eq!(metar.ceiling, Some(Ceiling::Unlimited));
    let metar = decode_metar("KXYZ 131951Z BKN///", None).unwrap();
    assert_eq!(metar.ceiling, Some(Ceiling::Indefinite));
    let metar = decode_metar("KXYZ 131951Z 18010KT", None).unwrap();
    assert_eq!(metar.ceiling, None);
    let metar = decode_metar("KXYZ 131951Z //////", None).unwrap();
    assert!(metar.clouds.is_empty());
    assert_eq!(metar.ceiling, None);
}

#[test]
fn calm_wind_in_a_report() {
    let metar = decode_metar("KXYZ 131951Z 00000KT 9999", None).unwrap();
    assert_eq!(metar.wind.wind_speed, exact(0, Unit::Knot));
    assert_eq!(metar.wind.wind_from_direction, None);
    assert_eq!(metar.visibility.prevailing_visibility, above(10000, Unit::Metre));
}

#[test]
fn text_is_cleaned_before_decoding() {
    let decoded = decode_report("  kxyz   131951z\t18010kt \u{a0} 9999 =  ", None).unwrap();
    assert_eq!(decoded.metar.report, "KXYZ 131951Z 18010KT 9999");
    assert_eq!(decoded.metar.header.station_id, Some("KXYZ".to_string()));
    assert_eq!(decoded.metar.wind.wind_speed, exact(10, Unit::Knot));
    assert!(decoded.unparsed_groups.is_empty());
    let decoded = decode_report("KXYZ 131951Z\0 18010KT==", None).unwrap();
    assert_eq!(decoded.metar.report, "KXYZ 131951Z 18010KT");
    let decoded = decode_report("\0 KXYZ 131951Z", None).unwrap();
    assert_eq!(decoded.metar.report, "KXYZ 131951Z");
    assert_eq!(decoded.metar.header.station_id, Some("KXYZ".to_string()));
    let decoded = decode_report("", None).unwrap();
    assert_eq!(decoded.metar, Metar::default());
    let decoded = decode_report(" = ", None).unwrap();
    assert_eq!(decoded.metar, Metar::default());
}

#[test]
fn upper_case_is_made_by_the_standard_library() {
    // The dotless i has the plain I as its upper case form.
    let decoded = decode_report("kx\u{131}z 131951z", None).unwrap();
    assert_eq!(decoded.metar.header.station_id, Some("KXIZ".to_string()));
    // Without folding the station is not recognised.
    let decoded = decode_folded("kxyz 131951z", None).unwrap();
    assert_eq!(decoded.metar.header.station_id, None);
    assert_eq!(decoded.unparsed_groups, vec!["kxyz".to_string(), "131951z".to_string()]);
}

#[test]
fn groups_that_no_rule_knows_are_noted() {
    let decoded = decode_report("METAR KXYZ 131951Z 18010KT FOO /// 9999 BAR/ //", None).unwrap();
    assert_eq!(decoded.unparsed_groups, vec!["METAR", "FOO", "BAR/"]);
    assert_eq!(decoded.metar.header.station_id, Some("KXYZ".to_string()));
    assert_eq!(decoded.metar.visibility.prevailing_visibility, above(10000, Unit::Metre));
    assert!(decoded.metar.clouds.is_empty());
}

#[test]
fn first_group_of_a_kind_wins() {
    let decoded =
        decode_report("KXYZ 131951Z 18010KT 27005KT 9999 NSC 4000 22/18 10/05 Q1013 Q0990", None)
            .unwrap();
    assert_eq!(decoded.metar.wind.wind_from_direction, exact(180, Unit::DegreeTrue));
    assert_eq!(decoded.metar.visibility.prevailing_visibility, above(10000, Unit::Metre));
    assert_eq!(decoded.metar.temperature.temperature, exact(22, Unit::DegreeCelsius));
    assert_eq!(decoded.metar.pressure.pressure, exact(1013, Unit::HectoPascal));
    assert_eq!(decoded.unparsed_groups, vec!["27005KT", "4000", "10/05", "Q0990"]);
}

#[test]
fn temperature_that_reports_nothing_leaves_room_for_a_later_one() {
    let metar = decode_metar("KXYZ 131951Z ///// 22/18", None).unwrap();
    assert_eq!(metar.temperature.temperature, exact(22, Unit::DegreeCelsius));
    let metar = decode_metar("KXYZ 131951Z Q//// Q1013", None).unwrap();
    assert_eq!(metar.pressure.pressure, exact(1013, Unit::HectoPascal));
}

#[test]
fn repeating_groups_are_listed_in_order() {
    let metar = decode_metar(
        "EGLL 131950Z 24015G27KT 210V270 3000 R27L/0600FT/D R09/P1500 -RA BR FEW010 BKN020CB \
         M01/M03 Q0998 RETS WS R27L WS ALL RWY W15/S3 BLU",
        None,
    )
    .unwrap();
    let runways: Vec<&str> = metar.runway_visual_ranges.iter().map(|r| r.runway.as_str()).collect();
    assert_eq!(runways, vec!["27L", "09"]);
    assert_eq!(metar.present_weather.len(), 2);
    assert_eq!(metar.present_weather[0].intensity, WeatherIntensity::Light);
    assert_eq!(metar.present_weather[0].phenomena, vec![WeatherPhenomena::Rain]);
    assert_eq!(metar.present_weather[1].phenomena, vec![WeatherPhenomena::Mist]);
    assert_eq!(metar.clouds.len(), 2);
    assert_eq!(metar.recent_weather.len(), 1);
    let shears: Vec<&str> = metar.wind_shears.iter().map(|w| w.runway.as_str()).collect();
    assert_eq!(shears, vec!["27L", "all"]);
    assert_eq!(metar.sea.sea_temperature, exact(15, Unit::DegreeCelsius));
    assert_eq!(metar.temperature.temperature, exact(-1, Unit::DegreeCelsius));
    assert_eq!(
        metar.ceiling,
        Some(Ceiling::Height(Quantity { value: Value::Exact(whole(2000)), units: Unit::Foot }))
    );
}

#[test]
fn trend_forecasts_are_decoded_one_by_one() {
    let decoded = decode_report(
        "EGLL 131950Z 24015KT 9999 FEW040 18/12 Q1015 TEMPO FM1200 TL1400 3000 -RA BKN010 \
         24020G35KT 4000 BECMG AT1800 CAVOK NOSIG",
        None,
    )
    .unwrap();
    let changes = &decoded.metar.trend_changes;
    assert_eq!(changes.len(), 3);
    assert_eq!(changes[0].indicator, Trend::Temporary);
    assert_eq!(changes[0].from_time, Some(MetarTime::Time(UtcTime(hm(12, 0)))));
    assert_eq!(changes[0].to_time, Some(MetarTime::Time(UtcTime(hm(14, 0)))));
    assert_eq!(changes[0].at_time, None);
    assert_eq!(changes[0].visibility.prevailing_visibility, exact(3000, Unit::Metre));
    assert_eq!(changes[0].weather.len(), 1);
    assert_eq!(changes[0].clouds, vec![layer(CloudCover::Broken, Some(1000))]);
    assert_eq!(changes[0].wind.wind_speed, exact(20, Unit::Knot));
    assert_eq!(changes[1].indicator, Trend::Becoming);
    assert_eq!(changes[1].at_time, Some(MetarTime::Time(UtcTime(hm(18, 0)))));
    assert_eq!(changes[1].visibility.prevailing_visibility, above(10000, Unit::Metre));
    assert_eq!(changes[1].clouds, vec![layer(CloudCover::CeilingOk, None)]);
    assert_eq!(changes[2], TrendChange::new(Trend::NoSignificantChange));
    assert_eq!(decoded.unparsed_groups, vec!["4000"]);
    assert_eq!(decoded.metar.clouds, vec![layer(CloudCover::Few, Some(4000))]);
    assert_eq!(decoded.metar.visibility.prevailing_visibility, above(10000, Unit::Metre));
}

#[test]
fn trend_times_follow_the_anchor() {
    let metar =
        decode_metar("EGLL 312350Z 24015KT BECMG FM0030 TL0100", Some(at(2023, 12, 31, 23, 55)))
            .unwrap();
    assert_eq!(
        metar.header.observation_time,
        Some(MetarTime::DateTime(UtcDateTime(at(2023, 12, 31, 23, 50))))
    );
    assert_eq!(
        metar.trend_changes[0].from_time,
        Some(MetarTime::DateTime(UtcDateTime(at(2024, 1, 1, 0, 30))))
    );
    assert_eq!(
        metar.trend_changes[0].to_time,
        Some(MetarTime::DateTime(UtcDateTime(at(2024, 1, 1, 1, 0))))
    );
}

#[test]
fn main_groups_are_not_read_in_a_trend_forecast() {
    let decoded = decode_report("EGLL 131950Z TEMPO 18/12 Q1015 R27/0600 WS R27", None).unwrap();
    assert!(decoded.metar.temperature.is_empty());
    assert!(decoded.metar.pressure.is_empty());
    assert!(decoded.metar.runway_visual_ranges.is_empty());
    assert_eq!(decoded.unparsed_groups, vec!["18/12", "Q1015", "R27/0600", "WS", "R27"]);
    assert_eq!(decoded.metar.trend_changes.len(), 1);
}

#[test]
fn remarks_are_passed_over() {
    let decoded =
        decode_report("KXYZ 131951Z 18010KT RMK AO2 SLP166 9999 BKN010 T02220183", None).unwrap();
    assert!(decoded.metar.visibility.is_empty());
    assert!(decoded.metar.clouds.is_empty());
    assert_eq!(decoded.metar.ceiling, None);
    assert_eq!(decoded.unparsed_groups, vec!["AO2", "SLP166", "9999", "BKN010", "T02220183"]);
}

#[test]
fn a_section_marker_counts_in_the_remarks_too() {
    let decoded = decode_report("KXYZ 131951Z RMK AO2 TEMPO 3000 RMK X", None).unwrap();
    assert_eq!(decoded.metar.trend_changes.len(), 1);
    assert_eq!(
        decoded.metar.trend_changes[0].visibility.prevailing_visibility,
        exact(3000, Unit::Metre)
    );
    assert_eq!(decoded.unparsed_groups, vec!["AO2", "X"]);
}

#[test]
fn header_with_impossible_time_fails_the_report() {
    assert_eq!(decode_metar("KXYZ 131960Z 18010KT", None), Err(DecodeError::InvalidTime));
    assert_eq!(decode_metar("KXYZ 132500Z 18010KT", None), Err(DecodeError::InvalidTime));
}

#[test]
fn header_with_a_day_that_no_month_has_fails_the_report() {
    let anchor = Some(at(2023, 5, 31, 12, 0));
    assert_eq!(decode_metar("KXYZ 000000Z 18010KT", anchor), Err(DecodeError::InvalidDate));
    assert_eq!(decode_metar("KXYZ 321200Z 18010KT", anchor), Err(DecodeError::InvalidDate));
    let metar = decode_metar("KXYZ 321200Z 18010KT", None).unwrap();
    assert_eq!(
        metar.header.observation_time,
        Some(MetarTime::DayTime(UtcDayTime(32, hm(12, 0))))
    );
}

#[test]
fn visibility_that_cannot_be_read_fails_the_report() {
    assert_eq!(decode_metar("KXYZ 131951Z 1/0SM", None), Err(DecodeError::InvalidNumber));
    assert_eq!(
        decode_metar("KXYZ 131951Z 4000 1500EW", None),
        Err(DecodeError::InvalidDirectionOctant)
    );
    assert_eq!(
        decode_metar("KXYZ 131951Z TEMPO 4000 1500EW", None),
        Err(DecodeError::InvalidDirectionOctant)
    );
}

#[test]
fn error_messages() {
    let errors = [
        DecodeError::InvalidNumber,
        DecodeError::InvalidTime,
        DecodeError::InvalidDate,
        DecodeError::InvalidTrend,
        DecodeError::InvalidSection,
        DecodeError::InvalidUnit,
        DecodeError::InvalidDirectionOctant,
        DecodeError::InvalidRunwayVisualRangeTrend,
        DecodeError::InvalidWeatherIntensity,
        DecodeError::InvalidWeatherDescriptor,
        DecodeError::InvalidWeatherPhenomena,
        DecodeError::InvalidCloudCover,
        DecodeError::InvalidCloudType,
        DecodeError::InvalidSeaState,
        DecodeError::InvalidTrendTimeIndicator,
    ];
    for (i, a) in errors.iter().enumerate() {
        assert!(!a.message().is_empty());
        for b in errors.iter().skip(i + 1) {
            assert_ne!(a.message(), b.message());
        }
    }
}

#[test]
fn empty_values() {
    assert!(Header::default().is_empty());
    assert!(Wind::default().is_empty());
    assert!(Visibility::default().is_empty());
    assert!(Temperature::default().is_empty());
    assert!(Pressure::default().is_empty());
    assert_eq!(TrendChange::default(), TrendChange::new(Trend::NoSignificantChange));
    assert_eq!(Metar::new("X".to_string()).report, "X");
}
