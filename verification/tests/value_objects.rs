use vending_machine::domain::{Name, ParseError, Password, Price, Value};

#[test]
fn name_parse_round_trips_valid_text() {
    let name = Name::parse("Cola").unwrap();
    assert_eq!(name.as_str(), "Cola");

    let thirty = "abcdefghijklmnopqrstuvwxyz1234";
    assert_eq!(thirty.len(), 30);
    let name = Name::parse(thirty).unwrap();
    assert_eq!(name.as_str(), thirty);
}

#[test]
fn name_parse_rejects_empty() {
    assert_eq!(Name::parse("").unwrap_err(), ParseError::Empty);
}

#[test]
fn name_parse_rejects_over_thirty_chars() {
    let thirty_one = "abcdefghijklmnopqrstuvwxyz12345";
    assert_eq!(thirty_one.len(), 31);
    assert_eq!(Name::parse(thirty_one).unwrap_err(), ParseError::TooLong);
}

#[test]
fn password_parse_accepts_eight_or_more_chars() {
    let pw = Password::parse("12345678").unwrap();
    assert_eq!(pw.as_str(), "12345678");
    let pw = Password::parse("a much longer password").unwrap();
    assert_eq!(pw.as_str(), "a much longer password");
}

#[test]
fn password_parse_rejects_short_or_empty() {
    assert_eq!(Password::parse("").unwrap_err(), ParseError::Empty);
    assert_eq!(Password::parse("1234567").unwrap_err(), ParseError::TooShort);
}

#[test]
fn value_parse_accepts_positive_counts() {
    assert_eq!(Value::parse("1").unwrap().as_value(), 1);
    assert_eq!(Value::parse("10").unwrap().as_value(), 10);
    assert_eq!(Value::parse("4294967295").unwrap().as_value(), u32::MAX);
}

#[test]
fn value_parse_rejects_zero_and_non_numbers() {
    assert_eq!(Value::parse("0").unwrap_err(), ParseError::NotPositive);
    assert_eq!(Value::parse("000").unwrap_err(), ParseError::NotPositive);
    assert_eq!(Value::parse("").unwrap_err(), ParseError::NotANumber);
    assert_eq!(Value::parse("abc").unwrap_err(), ParseError::NotANumber);
    assert_eq!(Value::parse("-1").unwrap_err(), ParseError::NotANumber);
    assert_eq!(Value::parse("1.5").unwrap_err(), ParseError::NotANumber);
    assert_eq!(Value::parse("4294967296").unwrap_err(), ParseError::NotANumber);
}

#[test]
fn value_parse_i32_rejects_zero_and_below() {
    assert_eq!(Value::parse_i32(5).unwrap().as_value(), 5);
    assert_eq!(Value::parse_i32(0).unwrap_err(), ParseError::NotPositive);
    assert_eq!(Value::parse_i32(-3).unwrap_err(), ParseError::NotPositive);
}

#[test]
fn value_parse_u32_rejects_zero() {
    assert_eq!(Value::parse_u32(7).unwrap().as_value(), 7);
    assert_eq!(Value::parse_u32(0).unwrap_err(), ParseError::NotPositive);
}

#[test]
fn price_parse_counts_hundredths_exactly() {
    assert_eq!(Price::parse("1.50").unwrap().as_value(), 150);
    assert_eq!(Price::parse("1.5").unwrap().as_value(), 150);
    assert_eq!(Price::parse("2").unwrap().as_value(), 200);
    assert_eq!(Price::parse("2.00").unwrap().as_value(), 200);
    assert_eq!(Price::parse("0.05").unwrap().as_value(), 5);
    assert_eq!(Price::parse("10.99").unwrap().as_value(), 1099);
}

#[test]
fn price_parse_rejects_zero() {
    assert_eq!(Price::parse("0").unwrap_err(), ParseError::NotPositive);
    assert_eq!(Price::parse("0.00").unwrap_err(), ParseError::NotPositive);
    assert_eq!(Price::parse("0.0").unwrap_err(), ParseError::NotPositive);
}

#[test]
fn price_parse_rejects_malformed_text() {
    assert_eq!(Price::parse("").unwrap_err(), ParseError::NotANumber);
    assert_eq!(Price::parse("abc").unwrap_err(), ParseError::NotANumber);
    assert_eq!(Price::parse("-2").unwrap_err(), ParseError::NotANumber);
    assert_eq!(Price::parse("1.505").unwrap_err(), ParseError::NotANumber);
    assert_eq!(Price::parse("3.").unwrap_err(), ParseError::NotANumber);
    assert_eq!(Price::parse(".5").unwrap_err(), ParseError::NotANumber);
    assert_eq!(Price::parse("1.2.3").unwrap_err(), ParseError::NotANumber);
}

#[test]
fn price_from_cents_rejects_zero() {
    assert_eq!(Price::from_cents(150).unwrap().as_value(), 150);
    assert_eq!(Price::from_cents(0).unwrap_err(), ParseError::NotPositive);
}
