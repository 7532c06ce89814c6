use regex::{Captures, Regex};
use rweather_decoder::datetime::{CivilTime, UtcDayTime, UtcTime};
use rweather_decoder::error::DecodeError;
use rweather_decoder::metar::{
    handle_cloud_layer, handle_header, handle_present_weather, handle_pressure,
    handle_recent_weather, handle_runway_visual_range, handle_sea, handle_section,
    handle_temperature, handle_trend_time, handle_visibility, handle_wind, handle_wind_shear,
    CloudCover, CloudLayer, CloudType, DirectionOctant, DirectionalVisibility, Header, MetarTime,
    Pressure, Quantity, RunwayVisualRange, RunwayVisualRangeTrend, Sea, SeaState, Section,
    Temperature, TrendTime, TrendTimeIndicator, Unit, Value, Visibility, WeatherCondition,
    WeatherDescriptor, WeatherIntensity, WeatherPhenomena, Wind, WindShear,
};
use rweather_decoder::number::Number;

const SECTION: &str = r"^(?P<section>NOSIG|TEMPO|BECMG|RMK)(?P<end>\s)";
const HEADER: &str = r"^(?P<station_id>[A-Z][A-Z0-9]{3})\s(?P<day>\d\d)(?P<hour>\d\d)(?P<minute>\d\d)\d?Z?(\s(?P<corrected>COR|CC[A-Z]))?(\s(?P<auto>AUTO))?(?P<end>\s)";
const WIND: &str = r"^E?(?P<direction>\d\d\d|VRB|///)(?P<speed>P?\d\d|//)(G(?P<gust>P?\d\d|//))?(?P<units>KT|MPS)(\s(?P<direction_range>\d\d\dV\d\d\d))?(?P<end>\s)";
const VISIBILITY: &str = r"^(?P<prevailing>[MP]?(\d+\s)?\d/\d{1,2}|[MP]?\d{1,5}|////|[CK]AVOK)(NDV)?\s?(?P<units>SM|KM)?(\s(?P<minimum>[MP]?\d{1,4}))?(?P<directional>(\s[MP]?\d{1,4}[NESW][EW]?)+)?(?P<end>\s)";
const RUNWAY_VISUAL_RANGE: &str = r"^R(?P<runway>\d\d[A-Z]?)/(?P<visual_range>[MP]?\d\d\d\d(V[MP]?\d\d\d\d)?)(?P<units>FT)?/?(?P<trend>[UDN])?(?P<end>\s)";
const PRESENT_WEATHER: &str = r"^(?P<intensity>[-\+])?(?P<code>(VC|MI|BC|PR|DR|BL|SH|TS|FZ|DZ|RA|SN|SG|PL|GR|GS|UP|BR|FG|FU|VA|DU|SA|HZ|PO|SQ|FC|SS|DS|IC|PY|NSW)+)(?P<end>\s)";
const CLOUD: &str = r"^(?P<cover>CLR|SKC|NSC|NCD|FEW|SCT|BKN|OVC|VV|///)(?P<height>\d{1,3}|///)?(?P<cloud>AC|ACC|ACSL|AS|CB|CBMAM|CC|CCSL|CI|CS|CU|NS|SC|SCSL|ST|TC?U|///)?(?P<end>\s)";
const TEMPERATURE: &str = r"^(?P<temperature>M?\d{1,2}|//|XX)/(?P<dew_point>M?\d{1,2}|//|XX)?(?P<end>\s)";
const PRESSURE: &str = r"^(?P<units>A|Q)(?P<pressure>\d{3,4}|////)(?P<end>\s)";
const RECENT_WEATHER: &str = r"^RE(?P<intensity>[-\+])?(?P<code>(VC|MI|BC|PR|DR|BL|SH|TS|FZ|DZ|RA|SN|SG|PL|GR|GS|UP|BR|FG|FU|VA|DU|SA|HZ|PO|SQ|FC|SS|DS|IC|PY|NSW)+)(?P<end>\s)";
const WIND_SHEAR: &str = r"^WS\s(?P<runway>R\d\d[A-Z]?|ALL\sRWY)(?P<end>\s)";
const SEA: &str = r"^W(?P<temperature>M?\d{1,2}|//|XX)/(S(?P<state>\d|/))?(H(?P<height>\d{1,3}|///))?(?P<end>\s)";
const DIRECTIONAL_VISIBILITY: &str = r"^(?P<visibility>[MP]?\d{1,4})(?P<direction>[NESW][EW]?)";
const TREND_TIME: &str = r"^(?P<indicator>FM|TL|AT)\s?(?P<hour>\d\d)(?P<minute>\d\d)Z?(?P<end>\s)";

/// Groups as they occur in reports, and groups bent out of shape.
const GROUPS: &[&str] = &[
    "NOSIG", "TEMPO", "BECMG", "RMK", "RMKS", "NOSIGX", "TEMP",
    "KXYZ 131951Z", "LFMC 130630Z COR AUTO", "LFMC 130630Z CCA", "LFMC 130630Z AUTO",
    "LFMC 130630Z COR", "LFMC 130630Z CORX", "LFMC 130630Z COR AUTOX", "LFMC 130630Z AUTO COR",
    "K1A2 1319512Z", "KXYZ 131951", "KXYZ 13195199Z", "KXYZ 131951ZZ", "1XYZ 131951Z",
    "KXY 131951Z", "KXYZ1 131951Z", "KXYZ 13195Z", "KXYZ 131951Z CC1", "KXYZ 131951Z CC",
    "18010KT", "00000KT", "VRB03KT", "/////KT", "24015G27KT 210V270", "24015GP99MPS",
    "E09005G//KT", "000P49KT", "18010KT 150V21", "18010KT 150V210X", "1810KT", "18010KTS",
    "18010G5KT", "180100KT", "18010", "EE18010KT", "VRB//G//MPS", "18010MPS 010V050",
    "18010GKT", "18010G15", "P18010KT", "180P10KT", "///P10KT", "VRBP10GP20KT",
    "10SM", "1 1/2SM", "M1/4SM", "3/16SM", "P6SM", "4000", "0800", "10KM", "15 KM", "9000NDV",
    "9999", "09999", "9999SM", "P9999", "CAVOK", "KAVOK", "////", "4000 1500", "4000 1500SW",
    "4000 1500SW M0800N", "6000 2000 3000E", "1 1/2X", "9999 KMX", "123456", "1/234SM",
    "CAVOKX", "/////", "SM", "P", "1/2", "1/2 SM", "11/2SM", "1 1/2 SM", "1 1 1/2SM",
    "12 3/4KM", "M1 1/2SM", "4000NDV 1500", "4000 SM", "4000 SM 1500", "4000SM 1500 1000N",
    "4000 1500N 1000", "4000 1500EE", "4000 1500NE 2000SW 3000W", "4000 15000", "4000 1500NN",
    "4000 P1500", "4000 M1500S", "CAVOK 1500", "//// 1500", "////SM", "////NDV", "CAVOKSM",
    "4000 1500SWX", "4000 1500 2000SWX", "1/2SM 1/4", "99999", "0", "1/16", "1/1", "12/34",
    "10SMX", "10 SMX", "10S", "4000 1500SW 20000N", "4000 N", "4000 1N", "4000 12345E",
    "R27L/0600FT/D", "R09/P1500VM2000U", "R36/M0050N", "R36/P2000", "R36/200", "R3/2000",
    "R36/2000V", "R36/2000X", "36/2000", "R36/2000V3000", "R36/2000VP3000FT", "R36/2000/",
    "R36/2000FT", "R36/2000FTU", "R36/2000//U", "R36L/2000UD", "R36LL/2000", "R36/20000",
    "R36/M2000VM3000/N", "R36/2000V300", "R36/2000F", "R36/2000VVRB",
    "-RA", "+TSRAGR", "VCSH", "NSW", "RA", "FZFG", "MIFG", "BCFG", "PRFG", "DRSN", "BLSN",
    "SHRA", "+SHRASN", "-DZ", "TS", "VCTS", "RAX", "-", "+", "XX", "NSWRA", "RANSW", "NSWNSW",
    "-+RA", "RA-", "VC", "R", "RAS", "+VCFC", "UP", "PY", "ICPL", "SQ", "DS", "SS", "PO",
    "RERA", "RETSRA", "RE-SN", "RE", "RENSW", "REX", "RE+SHRA", "RERERA",
    "FEW050", "BKN035CB", "VV002", "BKN///", "///015///", "//////TCU", "//////", "NSC", "NCD",
    "CLR", "SKC", "SCT8ACSL", "FEW0500", "FEW050XX", "FE050", "BKN///015", "///", "/////////",
    "OVC010TCU", "OVC010TU", "OVC010TC", "SCT030CBMAM", "SCT030ACC", "SCT030AC", "SCT030A",
    "VV///", "VV", "VV1", "VVV", "FEW", "FEWCB", "FEW///CB", "///CB", "OVC99", "BKN0",
    "BKN010///", "BKN010//", "SCT030SCSL", "SCT030CCSL", "SCT030CS", "SCT030NS", "SCT030ST",
    "22/18", "M05/M10", "02///", "7/", "XX/XX", "222/18", "22/188", "22", "M/M", "/18",
    "M1/M2", "00/M00", "22/XX", "///18", "22/M", "22/1", "2/1", "M22/", "XX/", "XXX/", "22/18X",
    "A3002", "Q1013", "Q998", "Q////", "Q10135", "Q99", "B1013", "Q///", "A////", "A300",
    "Q", "A", "Q1013X", "AQ1013",
    "WS R27L", "WS R09", "WS ALL RWY", "WS R2", "WS ALL", "WSR27", "WS ALLRWY", "WS RWY27",
    "WS R27LL", "WS R27 L", "WS", "WS ALL RWYS", "WS R277",
    "W15/S3", "WM01/H75", "W///S/H///", "W12/S9H120", "W12/", "W15/SX", "W15/H", "W15/H1234",
    "W/S3", "15/S3", "W15S3", "WXX/S5", "W15/H5", "W15/H05", "W15/S", "W15/S33", "W15/H///5",
    "W15/S3H", "W15/H3S3", "WM5/S/H10", "W155/S3",
    "BLU", "BLU+", "BLACKWHT", "BLU+BLUAMBYLOREDGRN", "BLUE", "BLAC", "WHT+", "GRN", "WHT",
    "RED", "AMB", "YLO", "BLACK", "BLACKBLU+", "BLU++", "REDRED", "GRNX",
    "RF00.0/000.0", "RF02.4/012.6", "RF//./////./", "RF//////////", "RF00.0-000.0",
    "RF0.0/000.0", "RFXX.X/XXX.X", "RF00/0/000/0", "RF00.0/000.00", "RF00.0/0000.0", "RF",
    "R27/123456", "R27L/CLRD60", "R09///99//", "R88/CLRD//", "R27/12345", "R27/1234567",
    "R27/CLRD6", "R2/123456", "R27/CLRD600", "R27/CLR060", "R27L///////", "R27/0600",
    "FM1230", "TL 1400Z", "AT2400", "AT2460", "FM2500", "FM123", "XX1230", "FM 12300",
    "TL1400ZZ", "FM1230Z", "AT 0000", "AT0000X", "FM", "TL12", "FM12345",
    "", "/", "//", "=", "$", "A02", "SLP166", "T02220183", "METAR", "SPECI", "AUTO", "COR",
];

const LETTERS: &[u8] = b"0123456789 /+-.=ABCDEFGHIJKLMNOPQRSTUVWXYZ0123456789  //MPVSNEW";

/// The groups, each alone and with something after it, and each with a few
/// characters put in, taken out or changed, always the same way. Each
/// changed text comes twice: as it is, and as cleaning leaves it, with single
/// blanks and one at the end.
fn texts() -> Vec<String> {
    let mut texts = Vec::new();
    let mut seed: u64 = 0x2545_f491_4f6c_dd1d;
    let mut next = move |below: usize| {
        seed ^= seed << 13;
        seed ^= seed >> 7;
        seed ^= seed << 17;
        (seed % below as u64) as usize
    };
    for group in GROUPS {
        texts.push(group.to_string());
        texts.push(format!("{} ", group));
        texts.push(format!("{} 9999 ", group));
        texts.push(format!("{} 10SM FEW050 ", group));
        texts.push(format!("{} NE ", group));
        texts.push(format!("{} AUTO ", group));
        texts.push(format!("{} 1/2SM ", group));
        texts.push(format!("{}X ", group));
        for _ in 0..24 {
            let mut bytes = format!("{} ", group).into_bytes();
            for _ in 0..1 + next(3) {
                let at = next(bytes.len() + 1);
                let letter = LETTERS[next(LETTERS.len())];
                match next(3) {
                    0 => bytes.insert(at, letter),
                    1 if at < bytes.len() => {
                        bytes.remove(at);
                    },
                    _ if at < bytes.len() => bytes[at] = letter,
                    _ => bytes.push(letter),
                }
            }
            bytes.push(b' ');
            let text = String::from_utf8(bytes).unwrap();
            let words: Vec<&str> = text.split(' ').filter(|w| !w.is_empty()).collect();
            texts.push(format!("{} ", words.join(" ")));
            texts.push(text);
        }
    }
    texts
}


fn named<'a>(c: &Captures<'a>, name: &str) -> Option<&'a str> {
    c.name(name).map(|m| m.as_str())
}

fn end(c: &Captures) -> usize {
    c.name("end").unwrap().end()
}

fn quantity(value: Option<Value>, units: Unit) -> Option<Quantity> {
    value.map(|value| Quantity { value, units })
}

fn degrees(s: &str) -> Option<Value> {
    match s {
        "//" | "XX" => None,
        s => match s.strip_prefix('M') {
            Some(digits) => match Value::from_str(digits).unwrap() {
                Value::Exact(x) => Some(Value::Exact(Number {
                    numerator: -x.numerator,
                    denominator: x.denominator,
                })),
                other => panic!("{:?}", other),
            },
            None => Some(Value::from_str(s).unwrap()),
        },
    }
}

fn expected_section(re: &Regex, text: &str) -> Option<(Section, usize)> {
    let c = re.captures(text)?;
    Some((Section::from_str(&c["section"]).unwrap(), end(&c)))
}

fn expected_header(re: &Regex, text: &str) -> Result<Option<(Header, usize)>, DecodeError> {
    let c = match re.captures(text) {
        Some(c) => c,
        None => return Ok(None),
    };
    let day: u32 = c["day"].parse().unwrap();
    let hour: u32 = c["hour"].parse().unwrap();
    let minute: u32 = c["minute"].parse().unwrap();
    if hour >= 24 || minute >= 60 {
        return Err(DecodeError::InvalidTime);
    }
    let header = Header {
        station_id: Some(c["station_id"].to_string()),
        observation_time: Some(MetarTime::DayTime(UtcDayTime(
            day,
            CivilTime { hour, minute, second: 0 },
        ))),
        is_corrected: Some(c.name("corrected").is_some()),
        is_automated: Some(c.name("auto").is_some()),
    };
    Ok(Some((header, end(&c))))
}

fn expected_wind(re: &Regex, text: &str) -> Option<(Wind, usize)> {
    let c = re.captures(text)?;
    let mut direction = match &c["direction"] {
        "///" => None,
        s => Some(Value::from_str(s).unwrap()),
    };
    if &c["direction"] == "000" && &c["speed"] == "00" {
        direction = None;
    }
    let speed = match &c["speed"] {
        "//" => None,
        s => Some(Value::from_str(s).unwrap()),
    };
    let gust = named(&c, "gust").and_then(|s| match s {
        "//" => None,
        s => Some(Value::from_str(s).unwrap()),
    });
    let units = Unit::from_str(&c["units"]).unwrap();
    let range = named(&c, "direction_range").map(|s| Value::from_str(s).unwrap());
    let wind = Wind {
        wind_from_direction: quantity(direction, Unit::DegreeTrue),
        wind_from_direction_range: quantity(range, Unit::DegreeTrue),
        wind_speed: quantity(speed, units),
        wind_gust: quantity(gust, units),
    };
    Some((wind, end(&c)))
}

fn expected_visibility(re: &Regex, item: &Regex, text: &str) -> Result<Option<(Visibility, bool, usize)>, DecodeError> {
    let c = match re.captures(text) {
        Some(c) => c,
        None => return Ok(None),
    };
    let mut is_cavok = false;
    let mut prevailing = match &c["prevailing"] {
        "////" => None,
        "CAVOK" | "KAVOK" => {
            is_cavok = true;
            Some(Value::Above(Number { numerator: 10000, denominator: 1 }))
        },
        s => Some(Value::from_str(s)?),
    };
    let units = named(&c, "units").map(|s| Unit::from_str(s).unwrap()).unwrap_or(Unit::Metre);
    if let Some(Value::Exact(x)) = prevailing {
        if x.equals_integer(9999) && units == Unit::Metre {
            prevailing = Some(Value::Above(Number { numerator: 10000, denominator: 1 }));
        }
    }
    let minimum = named(&c, "minimum").map(|s| Value::from_str(s).unwrap());
    let mut directional = Vec::new();
    if let Some(list) = named(&c, "directional") {
        for group in list.split(' ') {
            if let Some(g) = item.captures(group) {
                directional.push(DirectionalVisibility {
                    visibility: Quantity {
                        value: Value::from_str(&g["visibility"]).unwrap(),
                        units,
                    },
                    direction: DirectionOctant::from_str(&g["direction"])?,
                });
            }
        }
    }
    let visibility = Visibility {
        prevailing_visibility: quantity(prevailing, units),
        minimum_visibility: quantity(minimum, units),
        directional_visibilites: directional,
    };
    Ok(Some((visibility, is_cavok, end(&c))))
}

fn expected_runway_visual_range(re: &Regex, text: &str) -> Option<(RunwayVisualRange, usize)> {
    let c = re.captures(text)?;
    let units = named(&c, "units").map(|s| Unit::from_str(s).unwrap()).unwrap_or(Unit::Metre);
    let rvr = RunwayVisualRange {
        runway: c["runway"].to_string(),
        visual_range: Quantity { value: Value::from_str(&c["visual_range"]).unwrap(), units },
        trend: named(&c, "trend").map(|s| RunwayVisualRangeTrend::from_str(s).unwrap()),
    };
    Some((rvr, end(&c)))
}

fn expected_weather(re: &Regex, text: &str) -> Option<(WeatherCondition, usize)> {
    let c = re.captures(text)?;
    let intensity = named(&c, "intensity")
        .map(|s| WeatherIntensity::from_str(s).unwrap())
        .unwrap_or(WeatherIntensity::Moderate);
    let groups: Vec<String> = if &c["code"] == "NSW" {
        vec!["NSW".to_string()]
    } else {
        c["code"].chars().collect::<Vec<_>>().chunks(2).map(String::from_iter).collect()
    };
    let mut is_in_vicinity = false;
    let mut descriptors = Vec::new();
    let mut phenomena = Vec::new();
    for group in groups.iter() {
        if group == "VC" {
            is_in_vicinity = true;
        } else if let Ok(d) = WeatherDescriptor::from_str(group) {
            descriptors.push(d);
        } else if let Ok(p) = WeatherPhenomena::from_str(group) {
            phenomena.push(p);
        }
    }
    Some((WeatherCondition { intensity, is_in_vicinity, descriptors, phenomena }, end(&c)))
}

fn expected_cloud(re: &Regex, text: &str) -> Option<(CloudLayer, usize)> {
    let c = re.captures(text)?;
    let cover = match &c["cover"] {
        "///" => None,
        s => Some(CloudCover::from_str(s).unwrap()),
    };
    let height = named(&c, "height").and_then(|s| match s {
        "///" => None,
        s => Some(Value::from_str(s).unwrap().mul(100)),
    });
    let cloud_type = named(&c, "cloud").and_then(|s| match s {
        "///" => None,
        s => Some(CloudType::from_str(s).unwrap()),
    });
    Some((CloudLayer { cover, height: quantity(height, Unit::Foot), cloud_type }, end(&c)))
}

fn expected_temperature(re: &Regex, text: &str) -> Option<(Temperature, usize)> {
    let c = re.captures(text)?;
    let temperature = Temperature {
        temperature: quantity(degrees(&c["temperature"]), Unit::DegreeCelsius),
        dew_point: quantity(named(&c, "dew_point").and_then(degrees), Unit::DegreeCelsius),
    };
    Some((temperature, end(&c)))
}

fn expected_pressure(re: &Regex, text: &str) -> Option<(Pressure, usize)> {
    let c = re.captures(text)?;
    let mut value = match &c["pressure"] {
        "////" => None,
        s => Some(Value::from_str(s).unwrap()),
    };
    let units = Unit::from_str(&c["units"]).unwrap();
    if units == Unit::InchOfMercury {
        value = value.map(|p| p.div(100));
    }
    Some((Pressure { pressure: quantity(value, units) }, end(&c)))
}

fn expected_wind_shear(re: &Regex, text: &str) -> Option<(WindShear, usize)> {
    let c = re.captures(text)?;
    let runway = match &c["runway"] {
        "ALL RWY" => "all".to_string(),
        s => s[1..].to_string(),
    };
    Some((WindShear { runway }, end(&c)))
}

fn expected_sea(re: &Regex, text: &str) -> Option<(Sea, usize)> {
    let c = re.captures(text)?;
    let sea_state = named(&c, "state").and_then(|s| match s {
        "/" => None,
        s => Some(SeaState::from_str(s).unwrap()),
    });
    let height = named(&c, "height").and_then(|s| match s {
        "///" => None,
        s => Some(Value::from_str(s).unwrap().div(10)),
    });
    let sea = Sea {
        sea_temperature: quantity(degrees(&c["temperature"]), Unit::DegreeCelsius),
        sea_state,
        wave_height: quantity(height, Unit::Metre),
    };
    Some((sea, end(&c)))
}

fn expected_trend_time(re: &Regex, text: &str) -> Option<(TrendTime, usize)> {
    let c = re.captures(text)?;
    let indicator = TrendTimeIndicator::from_str(&c["indicator"]).unwrap();
    let mut hour: u32 = c["hour"].parse().unwrap();
    let minute: u32 = c["minute"].parse().unwrap();
    if hour == 24 {
        hour = 0;
    }
    let time = if hour < 24 && minute < 60 {
        Some(MetarTime::Time(UtcTime(CivilTime { hour, minute, second: 0 })))
    } else {
        None
    };
    Some((TrendTime { indicator, time }, end(&c)))
}

#[test]
fn section_rule_reads_what_its_pattern_captures() {
    let re = Regex::new(SECTION).unwrap();
    for text in texts() {
        assert_eq!(handle_section(&text), expected_section(&re, &text), "{:?}", text);
    }
}

#[test]
fn header_rule_reads_what_its_pattern_captures() {
    let re = Regex::new(HEADER).unwrap();
    for text in texts() {
        assert_eq!(handle_header(&text, None), expected_header(&re, &text), "{:?}", text);
    }
}

#[test]
fn wind_rule_reads_what_its_pattern_captures() {
    let re = Regex::new(WIND).unwrap();
    for text in texts() {
        assert_eq!(handle_wind(&text), expected_wind(&re, &text), "{:?}", text);
    }
}

#[test]
fn visibility_rule_reads_what_its_pattern_captures() {
    let re = Regex::new(VISIBILITY).unwrap();
    let item = Regex::new(DIRECTIONAL_VISIBILITY).unwrap();
    for text in texts() {
        assert_eq!(handle_visibility(&text), expected_visibility(&re, &item, &text), "{:?}", text);
    }
}

#[test]
fn runway_visual_range_rule_reads_what_its_pattern_captures() {
    let re = Regex::new(RUNWAY_VISUAL_RANGE).unwrap();
    for text in texts() {
        assert_eq!(
            handle_runway_visual_range(&text),
            expected_runway_visual_range(&re, &text),
            "{:?}",
            text
        );
    }
}

#[test]
fn weather_rule_reads_what_its_pattern_captures() {
    let present = Regex::new(PRESENT_WEATHER).unwrap();
    let recent = Regex::new(RECENT_WEATHER).unwrap();
    for text in texts() {
        assert_eq!(
            handle_present_weather(&text),
            expected_weather(&present, &text),
            "{:?}",
            text
        );
        assert_eq!(handle_recent_weather(&text), expected_weather(&recent, &text), "{:?}", text);
    }
}

#[test]
fn cloud_rule_reads_what_its_pattern_captures() {
    let re = Regex::new(CLOUD).unwrap();
    for text in texts() {
        assert_eq!(handle_cloud_layer(&text), expected_cloud(&re, &text), "{:?}", text);
    }
}

#[test]
fn temperature_rule_reads_what_its_pattern_captures() {
    let re = Regex::new(TEMPERATURE).unwrap();
    for text in texts() {
        assert_eq!(handle_temperature(&text), expected_temperature(&re, &text), "{:?}", text);
    }
}

#[test]
fn pressure_rule_reads_what_its_pattern_captures() {
    let re = Regex::new(PRESSURE).unwrap();
    for text in texts() {
        assert_eq!(handle_pressure(&text), expected_pressure(&re, &text), "{:?}", text);
    }
}

#[test]
fn wind_shear_rule_reads_what_its_pattern_captures() {
    let re = Regex::new(WIND_SHEAR).unwrap();
    for text in texts() {
        assert_eq!(handle_wind_shear(&text), expected_wind_shear(&re, &text), "{:?}", text);
    }
}

#[test]
fn sea_rule_reads_what_its_pattern_captures() {
    let re = Regex::new(SEA).unwrap();
    for text in texts() {
        assert_eq!(handle_sea(&text), expected_sea(&re, &text), "{:?}", text);
    }
}

#[test]
fn trend_time_rule_reads_what_its_pattern_captures() {
    let re = Regex::new(TREND_TIME).unwrap();
    for text in texts() {
        assert_eq!(handle_trend_time(&text, None), expected_trend_time(&re, &text), "{:?}", text);
    }
}
