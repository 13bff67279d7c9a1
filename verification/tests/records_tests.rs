use bitfinex::errors::{DecodeError, DecodeReason};
use bitfinex::flags::OrderFlags;
use bitfinex::json::JsonValue;
use bitfinex::num::Number;
use bitfinex::orders::{ActiveOrder, CancelOrderForm, OrderKind};
use bitfinex::responses::{
    AccountFees, OrderResponse, OrderResponseKind, ResponseStatus, TradeResponse,
    WalletTransferResponse, WalletTransferResponseKind,
};
use bitfinex::account::WalletKind;

fn n(v: u64) -> JsonValue {
    JsonValue::Num(Number::from_u64(v))
}

fn d(neg: bool, mag: u64, scale: u32) -> JsonValue {
    JsonValue::Num(Number::new(neg, mag, scale))
}

fn s(t: &str) -> JsonValue {
    JsonValue::Str(t.to_string())
}

fn active_order_array() -> Vec<JsonValue> {
    vec![
        n(1),
        JsonValue::Null,
        n(0),
        s("tBTCUSD"),
        n(100),
        n(200),
        d(true, 105, 1),
        d(true, 120, 1),
        s("LIMIT"),
        JsonValue::Null,
        JsonValue::Null,
        JsonValue::Null,
        n(1024),
        s("ACTIVE"),
        JsonValue::Null,
        JsonValue::Null,
        d(false, 500000, 1),
        d(false, 0, 1),
        d(false, 0, 1),
        d(false, 0, 1),
        JsonValue::Null,
        JsonValue::Null,
        JsonValue::Null,
        n(0),
        n(0),
        JsonValue::Null,
    ]
}

#[test]
fn active_order_scenario() {
    let arr = active_order_array();
    let o = ActiveOrder::decode(&arr).expect("well-formed record");
    assert_eq!(o.id(), 1);
    assert_eq!(o.group_id(), None);
    assert_eq!(o.client_id(), 0);
    assert_eq!(o.symbol(), "tBTCUSD");
    assert_eq!(o.creation_timestamp(), 100);
    assert_eq!(o.update_timestamp(), 200);
    assert_eq!(o.amount(), Number::new(true, 105, 1));
    assert_eq!(o.amount_original(), Number::new(true, 12, 0));
    assert_eq!(o.order_type(), OrderKind::Limit);
    assert_eq!(o.previous_order_type(), None);
    assert_eq!(o.flags(), OrderFlags::reduce_only());
    assert_eq!(o.order_status(), "ACTIVE");
    assert_eq!(o.price(), Number::from_u64(50000));
    assert_eq!(o.price_avg(), None);
    assert_eq!(o.price_trailing(), None);
    assert_eq!(o.price_aux_limit(), None);
    assert!(!o.hidden());
    assert_eq!(o.placed_id(), Some(0));
    assert_eq!(o.routing(), &None);
}

#[test]
fn active_order_one_element_short_names_first_unsatisfiable_field() {
    let mut arr = active_order_array();
    arr.pop();
    let e = ActiveOrder::decode(&arr).expect_err("a slot is missing");
    assert_eq!(e, DecodeError { field: 25, column: None, reason: DecodeReason::Missing });
}

#[test]
fn active_order_trailing_extra_elements_are_ignored() {
    let mut arr = active_order_array();
    arr.push(JsonValue::Null);
    arr.push(s("future-field"));
    let o = ActiveOrder::decode(&arr).expect("trailing elements tolerated");
    assert_eq!(o.id(), 1);
}

#[test]
fn cancel_form_from_an_active_order_cancels_by_id() {
    let arr = active_order_array();
    let o = ActiveOrder::decode(&arr).expect("well-formed record");
    let c = CancelOrderForm::from(o);
    assert_eq!(c.id, Some(1));
    assert_eq!(c.client_id, None);
    assert_eq!(c.client_id_date, None);
}

#[test]
fn active_order_unknown_order_type_fails() {
    let mut arr = active_order_array();
    arr[8] = s("TWAP");
    let e = ActiveOrder::decode(&arr).expect_err("unknown order type");
    assert_eq!(e, DecodeError { field: 8, column: None, reason: DecodeReason::UnknownVariant });
}

#[test]
fn active_order_string_flags_decode_like_numeric_flags() {
    let mut arr = active_order_array();
    arr[12] = s("1024");
    let o = ActiveOrder::decode(&arr).expect("string-form flags accepted");
    assert_eq!(o.flags(), OrderFlags::reduce_only());
}

#[test]
fn active_order_unknown_flag_bit_fails_decode() {
    let mut arr = active_order_array();
    arr[12] = n(2147483648);
    let e = ActiveOrder::decode(&arr).expect_err("unknown flag bit");
    assert_eq!(e, DecodeError { field: 12, column: None, reason: DecodeReason::InvalidFlags });
}

fn order_response_inner() -> Vec<JsonValue> {
    vec![
        n(12345),
        JsonValue::Null,
        n(7),
        s("tBTCUSD"),
        n(1000),
        n(2000),
        d(false, 10, 1),
        d(false, 10, 1),
        s("EXCHANGE LIMIT"),
        JsonValue::Null,
        JsonValue::Null,
        JsonValue::Null,
        n(4096),
        s("ACTIVE"),
        JsonValue::Null,
        JsonValue::Null,
        d(false, 900, 0),
        d(false, 0, 1),
        d(false, 0, 1),
        d(false, 0, 1),
        JsonValue::Null,
        JsonValue::Null,
        JsonValue::Null,
        n(1),
        JsonValue::Null,
        JsonValue::Null,
        JsonValue::Null,
        JsonValue::Null,
        s("BFX"),
        JsonValue::Null,
        JsonValue::Null,
    ]
}

fn order_response_envelope(payload: JsonValue) -> Vec<JsonValue> {
    vec![
        n(1568021000),
        s("on-req"),
        JsonValue::Null,
        JsonValue::Null,
        payload,
        JsonValue::Null,
        s("SUCCESS"),
        s("Submitting order."),
    ]
}

#[test]
fn order_response_single_nested_payload() {
    let arr = order_response_envelope(JsonValue::Arr(order_response_inner()));
    let o = OrderResponse::decode(&arr).expect("well-formed envelope");
    assert_eq!(o.mts(), 1568021000);
    assert!(matches!(o.response_type(), OrderResponseKind::NewOrderRequest));
    assert_eq!(o.message_id(), None);
    assert_eq!(o.id(), 12345);
    assert_eq!(o.gid(), None);
    assert_eq!(o.cid(), 7);
    assert_eq!(o.symbol(), "tBTCUSD");
    assert_eq!(o.amount(), Number::from_u64(1));
    assert_eq!(o.order_type(), OrderKind::ExchangeLimit);
    assert_eq!(o.flags(), OrderFlags::post_only());
    assert_eq!(o.price(), Number::from_u64(900));
    assert_eq!(o.price_avg(), None);
    assert!(o.hidden());
    assert_eq!(o.routing(), "BFX");
    assert_eq!(o.meta(), &None);
    assert_eq!(o.code(), 0);
    assert_eq!(o.status(), "SUCCESS");
    assert_eq!(o.text(), "Submitting order.");
}

#[test]
fn order_response_double_nested_payload_decodes_identically() {
    let direct = order_response_envelope(JsonValue::Arr(order_response_inner()));
    let wrapped =
        order_response_envelope(JsonValue::Arr(vec![JsonValue::Arr(order_response_inner())]));
    let a = OrderResponse::decode(&direct).expect("direct payload");
    let b = OrderResponse::decode(&wrapped).expect("wrapped payload");
    assert_eq!(a.id(), b.id());
    assert_eq!(a.mts(), b.mts());
    assert_eq!(a.cid(), b.cid());
    assert_eq!(a.symbol(), b.symbol());
    assert_eq!(a.amount(), b.amount());
    assert_eq!(a.order_type(), b.order_type());
    assert_eq!(a.flags(), b.flags());
    assert_eq!(a.price(), b.price());
    assert_eq!(a.hidden(), b.hidden());
    assert_eq!(a.routing(), b.routing());
    assert_eq!(a.status(), b.status());
    assert_eq!(a.text(), b.text());
}

#[test]
fn order_response_short_inner_record_names_missing_slot() {
    let mut inner = order_response_inner();
    inner.pop();
    let arr = order_response_envelope(JsonValue::Arr(inner));
    let e = OrderResponse::decode(&arr).expect_err("inner record too short");
    assert_eq!(e, DecodeError { field: 30, column: None, reason: DecodeReason::Missing });
}

#[test]
fn order_response_empty_payload_fails() {
    let arr = order_response_envelope(JsonValue::Arr(vec![]));
    let e = OrderResponse::decode(&arr).expect_err("empty payload");
    assert_eq!(e, DecodeError { field: 4, column: Some(0), reason: DecodeReason::Missing });
}

#[test]
fn order_response_truncated_envelope_fails() {
    let mut arr = order_response_envelope(JsonValue::Arr(order_response_inner()));
    arr.truncate(6);
    let e = OrderResponse::decode(&arr).expect_err("no status slot");
    assert_eq!(e, DecodeError { field: 6, column: None, reason: DecodeReason::Missing });
}

fn wallet_transfer_envelope(payload: JsonValue) -> Vec<JsonValue> {
    vec![
        n(1640000000),
        s("acc_tf"),
        n(42),
        JsonValue::Null,
        payload,
        JsonValue::Null,
        s("SUCCESS"),
        s("1.0 UST transferred"),
    ]
}

fn wallet_transfer_inner() -> Vec<JsonValue> {
    vec![
        n(1640000001),
        s("exchange"),
        s("margin"),
        JsonValue::Null,
        s("UST"),
        JsonValue::Null,
        JsonValue::Null,
        d(true, 5005, 1),
    ]
}

#[test]
fn wallet_transfer_scenario() {
    let arr = wallet_transfer_envelope(JsonValue::Arr(wallet_transfer_inner()));
    let t = WalletTransferResponse::decode(&arr).expect("well-formed transfer");
    assert_eq!(t.mts(), 1640000000);
    assert!(matches!(t.response_type(), WalletTransferResponseKind::AccountTransfer));
    assert_eq!(t.id(), Some(42));
    assert_eq!(t.mts_update(), 1640000001);
    assert!(matches!(t.from(), WalletKind::Exchange));
    assert!(matches!(t.to(), WalletKind::Margin));
    assert_eq!(t.symbol_from(), "UST");
    assert_eq!(t.symbol_to(), &None);
    assert_eq!(t.amount(), Number::new(true, 5005, 1));
    assert!(matches!(t.status(), ResponseStatus::Success));
    assert_eq!(t.text(), "1.0 UST transferred");
}

#[test]
fn wallet_transfer_double_nested_payload_decodes_identically() {
    let direct = wallet_transfer_envelope(JsonValue::Arr(wallet_transfer_inner()));
    let wrapped =
        wallet_transfer_envelope(JsonValue::Arr(vec![JsonValue::Arr(wallet_transfer_inner())]));
    let a = WalletTransferResponse::decode(&direct).expect("direct payload");
    let b = WalletTransferResponse::decode(&wrapped).expect("wrapped payload");
    assert_eq!(a.mts_update(), b.mts_update());
    assert_eq!(a.symbol_from(), b.symbol_from());
    assert_eq!(a.amount(), b.amount());
}

#[test]
fn wallet_transfer_unknown_wallet_kind_fails() {
    let mut inner = wallet_transfer_inner();
    inner[1] = s("vault");
    let arr = wallet_transfer_envelope(JsonValue::Arr(inner));
    let e = WalletTransferResponse::decode(&arr).expect_err("unknown wallet kind");
    assert_eq!(e, DecodeError { field: 1, column: None, reason: DecodeReason::UnknownVariant });
}

#[test]
fn wallet_transfer_unknown_kind_tag_fails() {
    let mut arr = wallet_transfer_envelope(JsonValue::Arr(wallet_transfer_inner()));
    arr[1] = s("acc_dep");
    let e = WalletTransferResponse::decode(&arr).expect_err("unknown kind tag");
    assert_eq!(e, DecodeError { field: 1, column: None, reason: DecodeReason::UnknownVariant });
}

fn trade_array() -> Vec<JsonValue> {
    vec![
        n(9),
        s("tBTCUSD"),
        n(111),
        n(222),
        d(true, 5, 1),
        d(false, 42000, 0),
        s("LIMIT"),
        JsonValue::Null,
        d(true, 1, 0),
        d(true, 2, 3),
        s("USD"),
    ]
}

#[test]
fn trade_scenario() {
    let arr = trade_array();
    let t = TradeResponse::decode(&arr).expect("well-formed trade");
    assert_eq!(t.trade_id(), 9);
    assert_eq!(t.symbol(), "tBTCUSD");
    assert_eq!(t.execution_timestamp(), 111);
    assert_eq!(t.order_id(), 222);
    assert_eq!(t.execution_amount(), Number::new(true, 5, 1));
    assert_eq!(t.execution_price(), Number::from_u64(42000));
    assert_eq!(t.order_type(), Some(OrderKind::Limit));
    assert_eq!(t.order_price(), None);
    assert!(!t.is_maker());
    assert_eq!(t.fee(), Number::new(true, 2, 3));
    assert_eq!(t.fee_currency(), "USD");
}

#[test]
fn trade_positive_maker_field_means_maker() {
    let mut arr = trade_array();
    arr[8] = n(1);
    let t = TradeResponse::decode(&arr).expect("well-formed trade");
    assert!(t.is_maker());
}

fn account_fees_array() -> Vec<JsonValue> {
    let maker = JsonValue::Arr(vec![
        d(false, 1, 3),
        n(0),
        n(0),
        JsonValue::Null,
        JsonValue::Null,
        d(true, 2, 4),
    ]);
    let taker = JsonValue::Arr(vec![
        d(false, 2, 3),
        d(false, 21, 4),
        d(false, 22, 4),
        JsonValue::Null,
        JsonValue::Null,
        d(false, 65, 5),
    ]);
    vec![
        n(1),
        s("summary"),
        JsonValue::Null,
        JsonValue::Null,
        JsonValue::Arr(vec![maker, taker]),
    ]
}

#[test]
fn account_fees_scenario() {
    let arr = account_fees_array();
    let f = AccountFees::decode(&arr).expect("well-formed fee schedule");
    assert_eq!(f.maker_fee(), Number::new(false, 1, 3));
    assert_eq!(f.derivative_rebate(), Number::new(true, 2, 4));
    assert_eq!(f.taker_to_crypto(), Number::new(false, 2, 3));
    assert_eq!(f.taker_to_stable(), Number::new(false, 21, 4));
    assert_eq!(f.taker_to_fiat(), Number::new(false, 22, 4));
    assert_eq!(f.derivative_taker(), Number::new(false, 65, 5));
}

#[test]
fn account_fees_short_row_names_row_and_column() {
    let maker = JsonValue::Arr(vec![d(false, 1, 3), n(0), n(0), JsonValue::Null, JsonValue::Null]);
    let taker = JsonValue::Arr(vec![
        d(false, 2, 3),
        d(false, 21, 4),
        d(false, 22, 4),
        JsonValue::Null,
        JsonValue::Null,
        d(false, 65, 5),
    ]);
    let arr = vec![
        n(1),
        s("summary"),
        JsonValue::Null,
        JsonValue::Null,
        JsonValue::Arr(vec![maker, taker]),
    ];
    let e = AccountFees::decode(&arr).expect_err("maker row too short");
    assert_eq!(e, DecodeError { field: 0, column: Some(5), reason: DecodeReason::Missing });
}

#[test]
fn account_fees_missing_table_fails() {
    let arr = vec![n(1), s("summary"), JsonValue::Null];
    let e = AccountFees::decode(&arr).expect_err("no table slot");
    assert_eq!(e, DecodeError { field: 4, column: None, reason: DecodeReason::Missing });
}
