use bitfinex::account::WalletKind;
use bitfinex::num::{i64_to_decimal, parse_decimal, u128_to_decimal, Number};
use bitfinex::orders::OrderKind;
use bitfinex::responses::{OrderResponseKind, ResponseStatus};

#[test]
fn numbers_are_kept_canonical() {
    assert_eq!(Number::new(false, 500000, 1), Number::from_u64(50000));
    assert_eq!(Number::new(true, 120, 1), Number::new(true, 12, 0));
    assert_eq!(Number::new(false, 0, 5), Number::from_u64(0));
    assert_eq!(Number::new(true, 0, 0), Number::from_u64(0));
    assert_eq!(Number::zero(), Number::from_u64(0));
    assert_eq!(Number::new(true, 105, 1), Number { neg: true, mag: 105, scale: 1 });
}

#[test]
fn parse_decimal_accepts_the_wire_shapes() {
    assert_eq!(parse_decimal("0"), Some(Number::from_u64(0)));
    assert_eq!(parse_decimal("1024"), Some(Number::from_u64(1024)));
    assert_eq!(parse_decimal("-10.5"), Some(Number { neg: true, mag: 105, scale: 1 }));
    assert_eq!(parse_decimal("50000.0"), Some(Number::from_u64(50000)));
    assert_eq!(parse_decimal("00.50"), Some(Number { neg: false, mag: 5, scale: 1 }));
    assert_eq!(parse_decimal("-0.0"), Some(Number::from_u64(0)));
}

#[test]
fn parse_decimal_rejects_malformed_numerals() {
    assert_eq!(parse_decimal(""), None);
    assert_eq!(parse_decimal("-"), None);
    assert_eq!(parse_decimal("."), None);
    assert_eq!(parse_decimal(".5"), None);
    assert_eq!(parse_decimal("5."), None);
    assert_eq!(parse_decimal("1.2.3"), None);
    assert_eq!(parse_decimal("1e5"), None);
    assert_eq!(parse_decimal("+5"), None);
    assert_eq!(parse_decimal(" 5"), None);
    assert_eq!(parse_decimal("--5"), None);
}

#[test]
fn parse_decimal_rejects_overflowing_digits() {
    assert_eq!(parse_decimal("18446744073709551615"), Some(Number::from_u64(u64::MAX)));
    assert_eq!(parse_decimal("18446744073709551616"), None);
}

#[test]
fn rounding_is_half_away_from_zero_and_clamps_negatives() {
    assert_eq!(Number::new(false, 105, 1).round_u64(), 11);
    assert_eq!(Number::new(false, 104, 1).round_u64(), 10);
    assert_eq!(Number::new(false, 1049, 2).round_u64(), 10);
    assert_eq!(Number::from_u64(7).round_u64(), 7);
    assert_eq!(Number::new(true, 3, 0).round_u64(), 0);
    assert_eq!(Number::new(true, 5, 1).round_u64(), 0);
    assert_eq!(Number::new(false, 5, 1).round_u64(), 1);
    assert_eq!(Number::new(false, 4, 1).round_u64(), 0);
}

#[test]
fn decimal_formatting_of_whole_numbers() {
    assert_eq!(u128_to_decimal(0), "0");
    assert_eq!(u128_to_decimal(7), "7");
    assert_eq!(u128_to_decimal(1024), "1024");
    assert_eq!(u128_to_decimal(u128::MAX), "340282366920938463463374607431768211455");
    assert_eq!(i64_to_decimal(0), "0");
    assert_eq!(i64_to_decimal(-1), "-1");
    assert_eq!(i64_to_decimal(i64::MIN), "-9223372036854775808");
    assert_eq!(i64_to_decimal(i64::MAX), "9223372036854775807");
}

#[test]
fn wire_enumerations_map_both_ways() {
    assert_eq!(OrderKind::from_wire("LIMIT"), Some(OrderKind::Limit));
    assert_eq!(OrderKind::from_wire("EXCHANGE TRAILING STOP"), Some(OrderKind::ExchangeTrailingStop));
    assert_eq!(OrderKind::from_wire("limit"), None);
    assert_eq!(OrderKind::from_wire("TWAP"), None);
    assert_eq!(OrderKind::ExchangeIoc.to_wire(), "EXCHANGE IOC");
    assert_eq!(WalletKind::from_wire("funding"), Some(WalletKind::Funding));
    assert_eq!(WalletKind::from_wire("FUNDING"), None);
    assert_eq!(WalletKind::Margin.to_wire(), "margin");
    assert_eq!(ResponseStatus::from_wire("SUCCESS"), Some(ResponseStatus::Success));
    assert_eq!(ResponseStatus::from_wire("FAILUR"), Some(ResponseStatus::Failure));
    assert_eq!(ResponseStatus::from_wire("FAILURE"), None);
    assert_eq!(OrderResponseKind::from_wire("on-req"), Some(OrderResponseKind::NewOrderRequest));
    assert_eq!(OrderResponseKind::from_wire("uca"), Some(OrderResponseKind::Uca));
    assert_eq!(OrderResponseKind::from_wire("cancel"), None);
}
