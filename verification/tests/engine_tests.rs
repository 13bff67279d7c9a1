use bitfinex::errors::{DecodeError, DecodeReason};
use bitfinex::json::JsonValue;
use bitfinex::num::Number;
use bitfinex::schema::{decode_flat, decode_record, FieldValue, Kind, Rule, SimpleRule};

fn numeric(neg: bool, mag: u64, scale: u32) -> JsonValue {
    JsonValue::Num(Number::new(neg, mag, scale))
}

#[test]
fn coercible_numeric_accepts_both_representations() {
    let schema = vec![SimpleRule::CoercibleNumeric, SimpleRule::CoercibleNumeric];
    let arr = vec![JsonValue::Str("-10.5".to_string()), numeric(true, 105, 1)];
    let fields = decode_flat(&schema, &arr).expect("both forms convert");
    assert!(matches!(fields[0], FieldValue::Num(n) if n == Number::new(true, 105, 1)));
    assert!(matches!(fields[1], FieldValue::Num(n) if n == Number::new(true, 105, 1)));
}

#[test]
fn coercible_numeric_refuses_non_numeral_strings() {
    let schema = vec![SimpleRule::CoercibleNumeric];
    let arr = vec![JsonValue::Str("12,5".to_string())];
    let e = decode_flat(&schema, &arr).expect_err("not a numeral");
    assert_eq!(e, DecodeError { field: 0, column: None, reason: DecodeReason::NotNumeric });
}

#[test]
fn skip_consumes_any_shape_and_never_fails() {
    let schema = vec![SimpleRule::Skip, SimpleRule::Skip, SimpleRule::Skip, SimpleRule::Skip];
    let arr = vec![
        JsonValue::Null,
        JsonValue::Bool(true),
        JsonValue::Obj(vec![("k".to_string(), JsonValue::Null)]),
        JsonValue::Arr(vec![]),
    ];
    let fields = decode_flat(&schema, &arr).expect("placeholders are never an error source");
    assert_eq!(fields.len(), 4);
    assert!(fields.iter().all(|f| matches!(f, FieldValue::Skipped)));
}

#[test]
fn sentinel_equality_decides_absence() {
    let schema = vec![
        SimpleRule::OptionalSentinel(Number::from_u64(0)),
        SimpleRule::OptionalSentinel(Number::from_u64(0)),
        SimpleRule::OptionalSentinel(Number::from_u64(0)),
    ];
    // the sentinel compares by value, so a negative price is still present
    let arr = vec![numeric(false, 0, 1), numeric(true, 3, 0), numeric(false, 7, 0)];
    let fields = decode_flat(&schema, &arr).expect("numbers convert");
    assert!(matches!(fields[0], FieldValue::Absent));
    assert!(matches!(fields[1], FieldValue::Num(n) if n == Number::new(true, 3, 0)));
    assert!(matches!(fields[2], FieldValue::Num(n) if n == Number::from_u64(7)));
}

#[test]
fn rounded_timestamps_round_half_away_from_zero() {
    let schema = vec![SimpleRule::Required(Kind::UintRounded)];
    let arr = vec![numeric(false, 15685, 1)];
    let fields = decode_flat(&schema, &arr).expect("a number rounds");
    assert!(matches!(fields[0], FieldValue::U64(1569)));
}

#[test]
fn nested_rows_decode_and_fail_by_column() {
    let schema = vec![
        Rule::Slot(SimpleRule::Required(Kind::Uint)),
        Rule::Nested(vec![SimpleRule::Required(Kind::Num), SimpleRule::Required(Kind::Str)]),
    ];
    let good = vec![
        numeric(false, 1, 0),
        JsonValue::Arr(vec![numeric(false, 2, 0), JsonValue::Str("x".to_string())]),
    ];
    let fields = decode_record(&schema, &good).expect("row satisfies its table");
    assert!(matches!(&fields[1], FieldValue::Row(row) if row.len() == 2));

    let bad = vec![
        numeric(false, 1, 0),
        JsonValue::Arr(vec![numeric(false, 2, 0), JsonValue::Null]),
    ];
    let e = decode_record(&schema, &bad).expect_err("column 1 is not a string");
    assert_eq!(e, DecodeError { field: 1, column: Some(1), reason: DecodeReason::WrongType });
}

#[test]
fn first_failing_slot_wins() {
    let schema = vec![
        Rule::Slot(SimpleRule::Required(Kind::Uint)),
        Rule::Slot(SimpleRule::Required(Kind::Str)),
        Rule::Slot(SimpleRule::Required(Kind::Str)),
    ];
    let arr = vec![numeric(false, 1, 0), JsonValue::Bool(false), JsonValue::Null];
    let e = decode_record(&schema, &arr).expect_err("two slots are wrong");
    assert_eq!(e, DecodeError { field: 1, column: None, reason: DecodeReason::WrongType });
}
