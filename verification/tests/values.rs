use rweather_decoder::error::DecodeError;
use rweather_decoder::metar::{Quantity, Unit, Value, ValueInRange};
use rweather_decoder::number::Number;

fn whole(n: i64) -> Number {
    Number { numerator: n, denominator: 1 }
}

#[test]
fn unit_tokens_are_read() {
    assert_eq!(Unit::from_str("KT"), Ok(Unit::Knot));
    assert_eq!(Unit::from_str("MPS"), Ok(Unit::MetrePerSecond));
    assert_eq!(Unit::from_str("KM"), Ok(Unit::KiloMetre));
    assert_eq!(Unit::from_str("SM"), Ok(Unit::StatuteMile));
    assert_eq!(Unit::from_str("FT"), Ok(Unit::Foot));
    assert_eq!(Unit::from_str("Q"), Ok(Unit::HectoPascal));
    assert_eq!(Unit::from_str("A"), Ok(Unit::InchOfMercury));
}

#[test]
fn unit_tokens_name_different_units() {
    let tokens = ["KT", "MPS", "KM", "SM", "FT", "Q", "A"];
    for a in tokens {
        for b in tokens {
            if a != b {
                assert_ne!(Unit::from_str(a), Unit::from_str(b));
            }
        }
    }
}

#[test]
fn unknown_unit_tokens_fail() {
    for token in ["", "kt", "KTS", "M", "MP", "degT", "K", "KT ", " KT"] {
        assert_eq!(Unit::from_str(token), Err(DecodeError::InvalidUnit));
    }
}

#[test]
fn value_variable() {
    assert_eq!(Value::from_str("VRB"), Ok(Value::Variable));
}

#[test]
fn value_above_and_below() {
    assert_eq!(Value::from_str("P99"), Ok(Value::Above(whole(99))));
    assert_eq!(Value::from_str("M0050"), Ok(Value::Below(whole(50))));
}

#[test]
fn value_exact_whole_number() {
    assert_eq!(Value::from_str("180"), Ok(Value::Exact(whole(180))));
    assert_eq!(Value::from_str("0"), Ok(Value::Exact(whole(0))));
    assert_eq!(Value::from_str("999999999"), Ok(Value::Exact(whole(999_999_999))));
}

#[test]
fn value_fraction() {
    assert_eq!(
        Value::from_str("1/2"),
        Ok(Value::Exact(Number { numerator: 1, denominator: 2 }))
    );
    assert_eq!(
        Value::from_str("M1/4"),
        Ok(Value::Below(Number { numerator: 1, denominator: 4 }))
    );
    assert_eq!(
        Value::from_str("3/16"),
        Ok(Value::Exact(Number { numerator: 3, denominator: 16 }))
    );
}

#[test]
fn mixed_number_is_exact() {
    assert_eq!(
        Value::from_str("1 1/2"),
        Ok(Value::Exact(Number { numerator: 3, denominator: 2 }))
    );
    assert_eq!(
        Value::from_str("P12 3/4"),
        Ok(Value::Above(Number { numerator: 51, denominator: 4 }))
    );
}

#[test]
fn value_range() {
    assert_eq!(
        Value::from_str("180V240"),
        Ok(Value::Range(ValueInRange::Exact(whole(180)), ValueInRange::Exact(whole(240))))
    );
    assert_eq!(
        Value::from_str("M0600VP1500"),
        Ok(Value::Range(ValueInRange::Below(whole(600)), ValueInRange::Above(whole(1500))))
    );
}

#[test]
fn value_in_range_tokens() {
    assert_eq!(ValueInRange::from_str("P1500"), Ok(ValueInRange::Above(whole(1500))));
    assert_eq!(ValueInRange::from_str("M0050"), Ok(ValueInRange::Below(whole(50))));
    assert_eq!(ValueInRange::from_str("0600"), Ok(ValueInRange::Exact(whole(600))));
    assert_eq!(ValueInRange::from_str("VRB"), Err(DecodeError::InvalidNumber));
}

#[test]
fn malformed_numbers_fail() {
    for token in [
        "", "P", "M", "V", "1/0", "1 1/0", "/2", "1/", "1 2", "1 /2", "-5", "+5", "1.5", "1e3",
        "12A", "1234567890", "1V", "V1", "1V2V3", "VRBX", "//", "1 1/2 3",
    ] {
        assert_eq!(Value::from_str(token), Err(DecodeError::InvalidNumber), "{:?}", token);
    }
}

#[test]
fn scaling_keeps_the_variant() {
    assert_eq!(Value::Variable.mul(100), Value::Variable);
    assert_eq!(Value::Variable.div(100), Value::Variable);
    assert_eq!(Value::Above(whole(20)).mul(100), Value::Above(whole(2000)));
    assert_eq!(Value::Below(whole(20)).mul(100), Value::Below(whole(2000)));
    assert_eq!(Value::Exact(whole(35)).mul(100), Value::Exact(whole(3500)));
    assert_eq!(
        Value::Exact(whole(3002)).div(100),
        Value::Exact(Number { numerator: 3002, denominator: 100 })
    );
    assert_eq!(
        Value::Range(ValueInRange::Below(whole(6)), ValueInRange::Above(whole(15))).mul(100),
        Value::Range(ValueInRange::Below(whole(600)), ValueInRange::Above(whole(1500)))
    );
    assert_eq!(
        Value::Range(ValueInRange::Exact(whole(6)), ValueInRange::Exact(whole(15))).div(10),
        Value::Range(
            ValueInRange::Exact(Number { numerator: 6, denominator: 10 }),
            ValueInRange::Exact(Number { numerator: 15, denominator: 10 })
        )
    );
}

#[test]
fn scaling_there_and_back_keeps_the_value() {
    let values = [
        Value::from_str("1 1/2").unwrap(),
        Value::from_str("P60").unwrap(),
        Value::from_str("M1/4").unwrap(),
        Value::from_str("0600V1200").unwrap(),
    ];
    for v in values {
        for k in [1u32, 10, 100, 7] {
            let back = v.mul(k).div(k);
            match (v, back) {
                (Value::Exact(a), Value::Exact(b))
                | (Value::Above(a), Value::Above(b))
                | (Value::Below(a), Value::Below(b)) => assert!(a.equals(&b)),
                (
                    Value::Range(ValueInRange::Exact(a), ValueInRange::Exact(c)),
                    Value::Range(ValueInRange::Exact(b), ValueInRange::Exact(d)),
                ) => assert!(a.equals(&b) && c.equals(&d)),
                other => panic!("variant changed: {:?}", other),
            }
        }
    }
}

#[test]
fn numbers_compare_by_value() {
    let half = Number { numerator: 1, denominator: 2 };
    let two_quarters = Number { numerator: 2, denominator: 4 };
    assert!(half.equals(&two_quarters));
    assert_ne!(half, two_quarters);
    assert!(half.less_than(&whole(1)));
    assert!(!whole(1).less_than(&half));
    assert!(!half.less_than(&two_quarters));
    assert!(whole(-3).less_than(&half));
    assert!(Number { numerator: 19998, denominator: 2 }.equals_integer(9999));
    assert!(!half.equals_integer(0));
    assert_eq!(Number::new(1, 0), None);
    assert_eq!(Number::new(1, -2), None);
    assert_eq!(Number::new(-1, 2), Some(Number { numerator: -1, denominator: 2 }));
    assert_eq!(Number::from_integer(7), whole(7));
}

#[test]
fn quantity_constructors() {
    let v = Value::Exact(whole(10));
    assert_eq!(Quantity::new(v, Unit::Knot), Quantity { value: v, units: Unit::Knot });
    assert_eq!(Quantity::new_opt(Some(v), Unit::Knot), Some(Quantity { value: v, units: Unit::Knot }));
    assert_eq!(Quantity::new_opt(None, Unit::Knot), None);
}
