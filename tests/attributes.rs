use xcsoar_tasks::text::{push_decimal, str_equal};
use xcsoar_tasks::{bool_attribute, parse_bool_attribute, AltitudeReference, InvalidBool, PointType};

#[test]
fn altitude_reference_from_attribute() {
    assert_eq!(AltitudeReference::from_attribute("MSL"), AltitudeReference::MSL);
    assert_eq!(AltitudeReference::from_attribute("AGL"), AltitudeReference::AGL);
    assert_eq!(AltitudeReference::from_attribute("msl"), AltitudeReference::AGL);
    assert_eq!(AltitudeReference::from_attribute(""), AltitudeReference::AGL);
    assert_eq!(AltitudeReference::from_attribute("MSL "), AltitudeReference::AGL);
}

#[test]
fn bool_attributes() {
    assert_eq!(parse_bool_attribute("1"), Ok(true));
    assert_eq!(parse_bool_attribute("true"), Ok(true));
    assert_eq!(parse_bool_attribute("0"), Ok(false));
    assert_eq!(parse_bool_attribute("false"), Ok(false));
    assert_eq!(parse_bool_attribute("yes"), Err(InvalidBool { value: "yes".to_string() }));
    assert_eq!(parse_bool_attribute("True"), Err(InvalidBool { value: "True".to_string() }));
    assert_eq!(bool_attribute(true), "1");
    assert_eq!(bool_attribute(false), "0");
    for b in [true, false] {
        assert_eq!(parse_bool_attribute(bool_attribute(b)), Ok(b));
    }
}

#[test]
fn point_type_names() {
    assert_eq!(PointType::Start.as_str(), "Start");
    assert_eq!(PointType::Turn.as_str(), "Turn");
    assert_eq!(PointType::Area.as_str(), "Area");
    assert_eq!(PointType::Finish.as_str(), "Finish");
    assert_eq!(PointType::OptionalStart.as_str(), "OptionalStart");
}

#[test]
fn decimal_digits() {
    for (n, text) in [(0u64, "0"), (7, "7"), (10, "10"), (1234567890, "1234567890"), (u64::MAX, "18446744073709551615")] {
        let mut s = String::from("#");
        push_decimal(&mut s, n);
        assert_eq!(s, format!("#{}", text));
    }
}

#[test]
fn string_equality() {
    assert!(str_equal("Lake", "Lake"));
    assert!(!str_equal("Lake", "Lakes"));
    assert!(!str_equal("Lake", "lake"));
    assert!(str_equal("", ""));
}
