use bitfinex::errors::RequestError;
use bitfinex::errors::categorize_response;
use bitfinex::flags::OrderFlags;
use bitfinex::num::Number;
use bitfinex::orders::{
    CancelOrderForm, DateTime, OrderForm, OrderFormError, OrderKind, OrderMeta,
};

#[test]
fn order_form_defaults() {
    let f = OrderForm::new(
        "tBTCUSD".to_string(),
        Number::from_u64(50000),
        Number::new(true, 5, 1),
        OrderKind::Limit,
    );
    assert_eq!(f.gid, None);
    assert_eq!(f.cid, None);
    assert_eq!(f.order_type, OrderKind::Limit);
    assert_eq!(f.symbol, "tBTCUSD");
    assert_eq!(f.price, Number::from_u64(50000));
    assert_eq!(f.amount, Number::new(true, 5, 1));
    assert_eq!(f.flags, Some(0));
    assert_eq!(f.leverage, None);
    assert!(f.tif.is_none());
    assert!(f.meta.is_none());
}

#[test]
fn order_form_builders_set_their_fields() {
    let f = OrderForm::new(
        "tETHUSD".to_string(),
        Number::from_u64(3000),
        Number::from_u64(2),
        OrderKind::ExchangeMarket,
    )
        .with_gid(Some(10))
        .with_cid(Some(11))
        .with_flags(Some(OrderFlags::post_only()))
        .with_leverage(Some(15))
        .with_meta(Some(OrderMeta::new("aff123".to_string())));
    assert_eq!(f.gid, Some(10));
    assert_eq!(f.cid, Some(11));
    assert_eq!(f.flags, Some(4096));
    assert_eq!(f.leverage, Some(15));
    assert_eq!(f.meta.as_ref().map(|m| m.aff_code.as_str()), Some("aff123"));
}

#[test]
fn price_trailing_needs_a_trailing_stop_order() {
    let trailing = OrderForm::new(
        "tBTCUSD".to_string(),
        Number::from_u64(50000),
        Number::from_u64(1),
        OrderKind::TrailingStop,
    )
        .with_price_trailing(Some(Number::from_u64(100)));
    assert!(trailing.is_ok());
    assert_eq!(trailing.unwrap().price_trailing, Some(Number::from_u64(100)));

    let not_trailing = OrderForm::new(
        "tBTCUSD".to_string(),
        Number::from_u64(50000),
        Number::from_u64(1),
        OrderKind::Limit,
    )
        .with_price_trailing(Some(Number::from_u64(100)));
    assert_eq!(not_trailing.unwrap_err(), OrderFormError::InvalidOrderType);
}

#[test]
fn price_aux_limit_needs_a_stop_limit_order() {
    let ok = OrderForm::new(
        "tBTCUSD".to_string(),
        Number::from_u64(50000),
        Number::from_u64(1),
        OrderKind::ExchangeStopLimit,
    )
        .with_price_aux_limit(Some(Number::from_u64(49000)));
    assert_eq!(ok.unwrap().price_aux_limit, Some(Number::from_u64(49000)));

    let bad = OrderForm::new(
        "tBTCUSD".to_string(),
        Number::from_u64(50000),
        Number::from_u64(1),
        OrderKind::Market,
    )
        .with_price_aux_limit(Some(Number::from_u64(49000)));
    assert_eq!(bad.unwrap_err(), OrderFormError::InvalidOrderType);
}

#[test]
fn oco_stop_price_needs_the_oco_flag() {
    let base = OrderForm::new(
        "tBTCUSD".to_string(),
        Number::from_u64(50000),
        Number::from_u64(1),
        OrderKind::Limit,
    );
    let no_flags = base.clone().with_flags(None).with_price_oco_stop(Some(Number::from_u64(1)));
    assert_eq!(no_flags.unwrap_err(), OrderFormError::NoFlagsSet);

    let wrong_flag = base.clone().with_flags(Some(OrderFlags::hidden())).with_price_oco_stop(
        Some(Number::from_u64(1)),
    );
    assert_eq!(wrong_flag.unwrap_err(), OrderFormError::OcoFlagNotSet);

    let with_oco = base.with_flags(Some(OrderFlags::oco())).with_price_oco_stop(
        Some(Number::from_u64(1)),
    );
    assert_eq!(with_oco.unwrap().price_oco_stop, Some(Number::from_u64(1)));
}

#[test]
fn time_in_force_is_formatted_with_zero_padding() {
    let f = OrderForm::new(
        "tBTCUSD".to_string(),
        Number::from_u64(50000),
        Number::from_u64(1),
        OrderKind::Limit,
    )
        .with_tif(
            Some(DateTime { year: 2020, month: 1, day: 1, hour: 10, minute: 45, second: 23 }),
        );
    assert_eq!(f.tif.as_deref(), Some("2020-01-01 10:45:23"));
}

#[test]
fn cancel_by_order_id() {
    let c = CancelOrderForm::from_id(981);
    assert_eq!(c.id, Some(981));
    assert_eq!(c.client_id, None);
    assert_eq!(c.client_id_date, None);
}

#[test]
fn cancel_by_client_id_carries_the_date() {
    let c = CancelOrderForm::from_client(
        5,
        DateTime { year: 2021, month: 9, day: 3, hour: 0, minute: 0, second: 0 },
    );
    assert_eq!(c.id, None);
    assert_eq!(c.client_id, Some(5));
    assert_eq!(c.client_id_date.as_deref(), Some("2021-09-03"));
}

#[test]
fn success_response_hands_the_body_on() {
    let r = categorize_response(200, "[1,2,3]".to_string());
    assert_eq!(r.unwrap(), "[1,2,3]");
}

#[test]
fn error_statuses_are_categorized() {
    assert!(matches!(
        categorize_response(500, "boom".to_string()),
        Err(RequestError::InternalServerError(b)) if b == "boom"
    ));
    assert!(matches!(categorize_response(401, "no".to_string()), Err(RequestError::Unauthorized)));
    assert!(matches!(
        categorize_response(503, "later".to_string()),
        Err(RequestError::Unknown(b)) if b == "later"
    ));
}
