use demopay::amount::{convert_amount, i64_to_decimal_string, MinorUnit, StringMinorUnitForConnector};

#[test]
fn decimal_string_of_zero() {
    assert_eq!(i64_to_decimal_string(0), "0");
}

#[test]
fn decimal_string_of_positive_amounts() {
    assert_eq!(i64_to_decimal_string(7), "7");
    assert_eq!(i64_to_decimal_string(10), "10");
    assert_eq!(i64_to_decimal_string(100), "100");
    assert_eq!(i64_to_decimal_string(1234567890), "1234567890");
}

#[test]
fn decimal_string_of_negative_amounts() {
    assert_eq!(i64_to_decimal_string(-1), "-1");
    assert_eq!(i64_to_decimal_string(-120), "-120");
}

#[test]
fn decimal_string_of_extremes() {
    assert_eq!(i64_to_decimal_string(i64::MAX), i64::MAX.to_string());
    assert_eq!(i64_to_decimal_string(i64::MIN), i64::MIN.to_string());
}

#[test]
fn decimal_string_matches_to_string() {
    for n in [-1000i64, -99, -10, -9, 0, 1, 9, 10, 11, 99, 100, 101, 999_999, 1_000_000] {
        assert_eq!(i64_to_decimal_string(n), n.to_string());
    }
}

#[test]
fn amount_round_trip_reads_back() {
    for n in [-5i64, 0, 50, 150, 1000] {
        let s = i64_to_decimal_string(n);
        assert_eq!(s.parse::<i64>().unwrap(), n);
    }
}

#[test]
fn convert_amount_writes_minor_units() {
    let converter = StringMinorUnitForConnector;
    let converted = convert_amount(&converter, MinorUnit::new(1050), "USD").unwrap();
    assert_eq!(converted.value, "1050");
    let converted = converter.convert(MinorUnit::new(50), "EUR").unwrap();
    assert_eq!(converted.value, "50");
}

#[test]
fn minor_unit_accessors() {
    let m = MinorUnit::new(42);
    assert_eq!(m.get_amount_as_i64(), 42);
    assert_eq!(m.value, 42);
}
