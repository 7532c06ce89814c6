use rweather_decoder::metar::{
    derive_ceiling, Ceiling, CloudCover, CloudLayer, CloudType, Quantity, Unit, Value,
};
use rweather_decoder::number::Number;

fn feet(n: i64) -> Quantity {
    Quantity { value: Value::Exact(Number { numerator: n, denominator: 1 }), units: Unit::Foot }
}

fn layer(cover: CloudCover, height: Option<i64>) -> CloudLayer {
    CloudLayer { cover: Some(cover), height: height.map(feet), cloud_type: None }
}

#[test]
fn ceiling_is_the_lowest_broken_or_overcast_layer() {
    let clouds = vec![
        layer(CloudCover::Few, Some(2000)),
        layer(CloudCover::Broken, Some(3500)),
        layer(CloudCover::Overcast, Some(5000)),
    ];
    assert_eq!(derive_ceiling(&clouds), Some(Ceiling::Height(feet(3500))));
}

#[test]
fn ceiling_is_the_lowest_even_when_listed_later() {
    let clouds = vec![
        layer(CloudCover::Overcast, Some(5000)),
        layer(CloudCover::Scattered, Some(1000)),
        layer(CloudCover::VerticalVisibility, Some(200)),
        layer(CloudCover::Broken, Some(3500)),
    ];
    assert_eq!(derive_ceiling(&clouds), Some(Ceiling::Height(feet(200))));
}

#[test]
fn ceiling_is_unlimited_without_broken_or_overcast_layers() {
    let clouds = vec![layer(CloudCover::Few, Some(2000)), layer(CloudCover::Scattered, Some(4000))];
    assert_eq!(derive_ceiling(&clouds), Some(Ceiling::Unlimited));
    for cover in [
        CloudCover::Clear,
        CloudCover::SkyClear,
        CloudCover::NilSignificantCloud,
        CloudCover::NoCloudDetected,
        CloudCover::CeilingOk,
    ] {
        assert_eq!(derive_ceiling(&vec![layer(cover, None)]), Some(Ceiling::Unlimited));
    }
}

#[test]
fn ceiling_is_indefinite_without_a_height() {
    assert_eq!(derive_ceiling(&vec![layer(CloudCover::Broken, None)]), Some(Ceiling::Indefinite));
    let clouds = vec![layer(CloudCover::Few, Some(1000)), layer(CloudCover::Overcast, None)];
    assert_eq!(derive_ceiling(&clouds), Some(Ceiling::Indefinite));
}

#[test]
fn ceiling_is_absent_without_layers() {
    assert_eq!(derive_ceiling(&Vec::new()), None);
}

#[test]
fn ceiling_passes_over_layers_without_a_height() {
    let clouds = vec![
        layer(CloudCover::Broken, None),
        layer(CloudCover::Overcast, Some(8000)),
        CloudLayer { cover: None, height: Some(feet(100)), cloud_type: Some(CloudType::Cumulonimbus) },
    ];
    assert_eq!(derive_ceiling(&clouds), Some(Ceiling::Height(feet(8000))));
}

#[test]
fn ceiling_of_equal_heights_is_the_first() {
    let half = Quantity {
        value: Value::Exact(Number { numerator: 7000, denominator: 2 }),
        units: Unit::Foot,
    };
    let clouds = vec![
        CloudLayer { cover: Some(CloudCover::Broken), height: Some(half), cloud_type: None },
        layer(CloudCover::Overcast, Some(3500)),
    ];
    assert_eq!(derive_ceiling(&clouds), Some(Ceiling::Height(half)));
}
