use bitfinex::errors::DecodeReason;
use bitfinex::flags::{
    decode_flags_value, OrderFlags, FLAG_CLOSE, FLAG_HIDDEN, FLAG_NO_VAR_RATES, FLAG_OCO,
    FLAG_POST_ONLY, FLAG_REDUCE_ONLY,
};
use bitfinex::json::JsonValue;
use bitfinex::num::Number;

fn all_flag_combinations() -> Vec<u32> {
    let singles = [
        FLAG_HIDDEN,
        FLAG_CLOSE,
        FLAG_REDUCE_ONLY,
        FLAG_POST_ONLY,
        FLAG_OCO,
        FLAG_NO_VAR_RATES,
    ];
    let mut combos = Vec::new();
    for mask in 0u32..64 {
        let mut bits = 0u32;
        for (i, f) in singles.iter().enumerate() {
            if mask & (1 << i) != 0 {
                bits |= f;
            }
        }
        combos.push(bits);
    }
    combos
}

#[test]
fn numeric_round_trip_every_combination() {
    for bits in all_flag_combinations() {
        let f = OrderFlags::from_bits(bits).expect("known bits");
        let encoded = f.encode();
        assert_eq!(encoded, bits);
        let decoded = decode_flags_value(&JsonValue::Num(Number::from_u64(encoded as u64)));
        assert_eq!(decoded, Ok(f));
    }
}

#[test]
fn string_form_agrees_with_numeric_form_everywhere() {
    let mut values = all_flag_combinations();
    values.push(1);
    values.push(2147483648);
    values.push(u32::MAX);
    for bits in values {
        let as_num = decode_flags_value(&JsonValue::Num(Number::from_u64(bits as u64)));
        let as_str = decode_flags_value(&JsonValue::Str(format!("{}", bits)));
        assert_eq!(as_num, as_str);
    }
}

#[test]
fn unknown_high_bit_is_invalid_flags() {
    let decoded = decode_flags_value(&JsonValue::Num(Number::from_u64(2147483648)));
    assert_eq!(decoded, Err(DecodeReason::InvalidFlags));
    let decoded_str = decode_flags_value(&JsonValue::Str("2147483648".to_string()));
    assert_eq!(decoded_str, Err(DecodeReason::InvalidFlags));
}

#[test]
fn unknown_low_bit_is_invalid_even_beside_known_bits() {
    let decoded = decode_flags_value(&JsonValue::Num(Number::from_u64((FLAG_HIDDEN | 1) as u64)));
    assert_eq!(decoded, Err(DecodeReason::InvalidFlags));
}

#[test]
fn value_beyond_the_flag_word_is_invalid_flags() {
    let decoded = decode_flags_value(&JsonValue::Num(Number::from_u64(1 << 40)));
    assert_eq!(decoded, Err(DecodeReason::InvalidFlags));
}

#[test]
fn fractional_or_negative_flag_numbers_are_wrong_type() {
    let frac = decode_flags_value(&JsonValue::Num(Number::new(false, 645, 1)));
    assert_eq!(frac, Err(DecodeReason::WrongType));
    let neg = decode_flags_value(&JsonValue::Num(Number::new(true, 64, 0)));
    assert_eq!(neg, Err(DecodeReason::WrongType));
    let frac_str = decode_flags_value(&JsonValue::Str("64.5".to_string()));
    assert_eq!(frac_str, Err(DecodeReason::WrongType));
}

#[test]
fn non_numeric_flag_string_is_not_numeric() {
    let decoded = decode_flags_value(&JsonValue::Str("many".to_string()));
    assert_eq!(decoded, Err(DecodeReason::NotNumeric));
}

#[test]
fn other_json_shapes_are_wrong_type() {
    assert_eq!(decode_flags_value(&JsonValue::Null), Err(DecodeReason::WrongType));
    assert_eq!(decode_flags_value(&JsonValue::Bool(true)), Err(DecodeReason::WrongType));
}

#[test]
fn integer_valued_decimal_string_decodes() {
    let decoded = decode_flags_value(&JsonValue::Str("64.0".to_string()));
    assert_eq!(decoded, Ok(OrderFlags::hidden()));
}

#[test]
fn flag_union_and_contains() {
    let f = OrderFlags::hidden().union(OrderFlags::oco());
    assert!(f.contains(OrderFlags::hidden()));
    assert!(f.contains(OrderFlags::oco()));
    assert!(!f.contains(OrderFlags::close()));
    assert_eq!(f.bits(), FLAG_HIDDEN | FLAG_OCO);
}
