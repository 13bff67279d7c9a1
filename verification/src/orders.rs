//! Order records and order forms.
//!
//! `ActiveOrder` is the flat positional record that order listings carry:
//! twenty-six slots with reserved placeholders interspersed, decoded by one
//! rule table through the generic engine. `OrderForm` and `CancelOrderForm`
//! are the outgoing request bodies, built from plain values.

use crate::errors::{DecodeError, DecodeReason};
use crate::flags::{spec_flags_value, OrderFlags, FLAG_OCO, KNOWN_FLAGS};
use crate::json::JsonValue;
use crate::num::{dec_chars, u128_to_decimal, Number};
use crate::schema::{decode_record, record_error, record_ok, Kind, Rule, SimpleRule};
use crate::text::str_eq;
use vstd::prelude::*;

verus! {

/// The type of an order. A closed enumeration of wire strings: anything
/// else is a decode error, never a default.
#[derive(Clone, Copy, Debug, PartialEq, Eq, Structural)]
pub enum OrderKind {
    Limit,
    ExchangeLimit,
    Market,
    ExchangeMarket,
    Stop,
    ExchangeStop,
    StopLimit,
    ExchangeStopLimit,
    TrailingStop,
    ExchangeTrailingStop,
    Fok,
    ExchangeFok,
    Ioc,
    ExchangeIoc,
}

/// The order kind a wire string names, if any.
pub open spec fn order_kind_of(s: Seq<char>) -> Option<OrderKind> {
    if s == "LIMIT"@ {
        Some(OrderKind::Limit)
    } else if s == "EXCHANGE LIMIT"@ {
        Some(OrderKind::ExchangeLimit)
    } else if s == "MARKET"@ {
        Some(OrderKind::Market)
    } else if s == "EXCHANGE MARKET"@ {
        Some(OrderKind::ExchangeMarket)
    } else if s == "STOP"@ {
        Some(OrderKind::Stop)
    } else if s == "EXCHANGE STOP"@ {
        Some(OrderKind::ExchangeStop)
    } else if s == "STOP LIMIT"@ {
        Some(OrderKind::StopLimit)
    } else if s == "EXCHANGE STOP LIMIT"@ {
        Some(OrderKind::ExchangeStopLimit)
    } else if s == "TRAILING STOP"@ {
        Some(OrderKind::TrailingStop)
    } else if s == "EXCHANGE TRAILING STOP"@ {
        Some(OrderKind::ExchangeTrailingStop)
    } else if s == "FOK"@ {
        Some(OrderKind::Fok)
    } else if s == "EXCHANGE FOK"@ {
        Some(OrderKind::ExchangeFok)
    } else if s == "IOC"@ {
        Some(OrderKind::Ioc)
    } else if s == "EXCHANGE IOC"@ {
        Some(OrderKind::ExchangeIoc)
    } else {
        None
    }
}

impl OrderKind {
    /// The wire name of the order kind.
    pub open spec fn spec_wire(self) -> Seq<char> {
        match self {
            OrderKind::Limit => "LIMIT"@,
            OrderKind::ExchangeLimit => "EXCHANGE LIMIT"@,
            OrderKind::Market => "MARKET"@,
            OrderKind::ExchangeMarket => "EXCHANGE MARKET"@,
            OrderKind::Stop => "STOP"@,
            OrderKind::ExchangeStop => "EXCHANGE STOP"@,
            OrderKind::StopLimit => "STOP LIMIT"@,
            OrderKind::ExchangeStopLimit => "EXCHANGE STOP LIMIT"@,
            OrderKind::TrailingStop => "TRAILING STOP"@,
            OrderKind::ExchangeTrailingStop => "EXCHANGE TRAILING STOP"@,
            OrderKind::Fok => "FOK"@,
            OrderKind::ExchangeFok => "EXCHANGE FOK"@,
            OrderKind::Ioc => "IOC"@,
            OrderKind::ExchangeIoc => "EXCHANGE IOC"@,
        }
    }

    pub fn to_wire(&self) -> (r: String)
        ensures
            r@ == self.spec_wire(),
    {
        match self {
            OrderKind::Limit => "LIMIT".to_owned(),
            OrderKind::ExchangeLimit => "EXCHANGE LIMIT".to_owned(),
            OrderKind::Market => "MARKET".to_owned(),
            OrderKind::ExchangeMarket => "EXCHANGE MARKET".to_owned(),
            OrderKind::Stop => "STOP".to_owned(),
            OrderKind::ExchangeStop => "EXCHANGE STOP".to_owned(),
            OrderKind::StopLimit => "STOP LIMIT".to_owned(),
            OrderKind::ExchangeStopLimit => "EXCHANGE STOP LIMIT".to_owned(),
            OrderKind::TrailingStop => "TRAILING STOP".to_owned(),
            OrderKind::ExchangeTrailingStop => "EXCHANGE TRAILING STOP".to_owned(),
            OrderKind::Fok => "FOK".to_owned(),
            OrderKind::ExchangeFok => "EXCHANGE FOK".to_owned(),
            OrderKind::Ioc => "IOC".to_owned(),
            OrderKind::ExchangeIoc => "EXCHANGE IOC".to_owned(),
        }
    }

    /// The order kind a wire string names, exactly when it names one.
    pub fn from_wire(s: &str) -> (r: Option<OrderKind>)
        ensures
            r == order_kind_of(s@),
    {
        if str_eq(s, "LIMIT") {
            Some(OrderKind::Limit)
        } else if str_eq(s, "EXCHANGE LIMIT") {
            Some(OrderKind::ExchangeLimit)
        } else if str_eq(s, "MARKET") {
            Some(OrderKind::Market)
        } else if str_eq(s, "EXCHANGE MARKET") {
            Some(OrderKind::ExchangeMarket)
        } else if str_eq(s, "STOP") {
            Some(OrderKind::Stop)
        } else if str_eq(s, "EXCHANGE STOP") {
            Some(OrderKind::ExchangeStop)
        } else if str_eq(s, "STOP LIMIT") {
            Some(OrderKind::StopLimit)
        } else if str_eq(s, "EXCHANGE STOP LIMIT") {
            Some(OrderKind::ExchangeStopLimit)
        } else if str_eq(s, "TRAILING STOP") {
            Some(OrderKind::TrailingStop)
        } else if str_eq(s, "EXCHANGE TRAILING STOP") {
            Some(OrderKind::ExchangeTrailingStop)
        } else if str_eq(s, "FOK") {
            Some(OrderKind::Fok)
        } else if str_eq(s, "EXCHANGE FOK") {
            Some(OrderKind::ExchangeFok)
        } else if str_eq(s, "IOC") {
            Some(OrderKind::Ioc)
        } else if str_eq(s, "EXCHANGE IOC") {
            Some(OrderKind::ExchangeIoc)
        } else {
            None
        }
    }
}

/// The wire mapping is a bijection on its enumeration: reading back the
/// wire name of any order kind yields that same kind.
pub proof fn lemma_order_kind_round_trip(k: OrderKind)
    ensures
        order_kind_of(k.spec_wire()) == Some(k),
{
    reveal_strlit("LIMIT");
    reveal_strlit("EXCHANGE LIMIT");
    reveal_strlit("MARKET");
    reveal_strlit("EXCHANGE MARKET");
    reveal_strlit("STOP");
    reveal_strlit("EXCHANGE STOP");
    reveal_strlit("STOP LIMIT");
    reveal_strlit("EXCHANGE STOP LIMIT");
    reveal_strlit("TRAILING STOP");
    reveal_strlit("EXCHANGE TRAILING STOP");
    reveal_strlit("FOK");
    reveal_strlit("EXCHANGE FOK");
    reveal_strlit("IOC");
    reveal_strlit("EXCHANGE IOC");
    assert("LIMIT"@.len() == 5);
    assert("EXCHANGE LIMIT"@.len() == 14);
    assert("MARKET"@.len() == 6);
    assert("EXCHANGE MARKET"@.len() == 15);
    assert("STOP"@.len() == 4);
    assert("EXCHANGE STOP"@.len() == 13);
    assert("STOP LIMIT"@.len() == 10);
    assert("EXCHANGE STOP LIMIT"@.len() == 19);
    assert("TRAILING STOP"@.len() == 13);
    assert("EXCHANGE TRAILING STOP"@.len() == 22);
    assert("FOK"@.len() == 3);
    assert("EXCHANGE FOK"@.len() == 12);
    assert("IOC"@.len() == 3);
    assert("EXCHANGE IOC"@.len() == 12);
    assert("TRAILING STOP"@[0] != "EXCHANGE STOP"@[0]);
    assert("IOC"@[0] != "FOK"@[0]);
    assert("EXCHANGE IOC"@[9] != "EXCHANGE FOK"@[9]);
}

/// A calendar date and time of day, as the order forms carry it: plain
/// fields, formatted on the wire as zero-padded decimal.
#[derive(Clone, Copy, Debug, PartialEq, Eq, Structural)]
pub struct DateTime {
    pub year: u16,
    pub month: u8,
    pub day: u8,
    pub hour: u8,
    pub minute: u8,
    pub second: u8,
}

/// A number padded with zeros to two digits.
pub open spec fn pad2(n: nat) -> Seq<char> {
    if n < 10 {
        "0"@ + dec_chars(n)
    } else {
        dec_chars(n)
    }
}

/// A number padded with zeros to four digits.
pub open spec fn pad4(n: nat) -> Seq<char> {
    if n < 10 {
        "000"@ + dec_chars(n)
    } else if n < 100 {
        "00"@ + dec_chars(n)
    } else if n < 1000 {
        "0"@ + dec_chars(n)
    } else {
        dec_chars(n)
    }
}

fn pad2_str(n: u8) -> (r: String)
    ensures
        r@ == pad2(n as nat),
{
    if n < 10 {
        let mut r = "0".to_owned();
        r.append(u128_to_decimal(n as u128).as_str());
        r
    } else {
        u128_to_decimal(n as u128)
    }
}

fn pad4_str(n: u16) -> (r: String)
    ensures
        r@ == pad4(n as nat),
{
    if n < 10 {
        let mut r = "000".to_owned();
        r.append(u128_to_decimal(n as u128).as_str());
        r
    } else if n < 100 {
        let mut r = "00".to_owned();
        r.append(u128_to_decimal(n as u128).as_str());
        r
    } else if n < 1000 {
        let mut r = "0".to_owned();
        r.append(u128_to_decimal(n as u128).as_str());
        r
    } else {
        u128_to_decimal(n as u128)
    }
}

impl DateTime {
    /// The fields name a calendar time a wire date can carry.
    pub open spec fn wf(self) -> bool {
        &&& self.year <= 9999
        &&& 1 <= self.month <= 12
        &&& 1 <= self.day <= 31
        &&& self.hour <= 23
        &&& self.minute <= 59
        &&& self.second <= 59
    }

    /// The date alone, `YYYY-MM-DD`.
    pub open spec fn spec_date(self) -> Seq<char> {
        pad4(self.year as nat) + "-"@ + pad2(self.month as nat) + "-"@ + pad2(self.day as nat)
    }

    /// Date and time of day, `YYYY-MM-DD HH:MM:SS`.
    pub open spec fn spec_datetime(self) -> Seq<char> {
        self.spec_date() + " "@ + pad2(self.hour as nat) + ":"@ + pad2(self.minute as nat) + ":"@
            + pad2(self.second as nat)
    }

    /// Format the date alone, `YYYY-MM-DD`.
    pub fn format_date(&self) -> (r: String)
        ensures
            r@ == self.spec_date(),
    {
        let mut r = pad4_str(self.year);
        r.append("-");
        r.append(pad2_str(self.month).as_str());
        r.append("-");
        r.append(pad2_str(self.day).as_str());
        r
    }

    /// Format date and time of day, `YYYY-MM-DD HH:MM:SS`.
    pub fn format_datetime(&self) -> (r: String)
        ensures
            r@ == self.spec_datetime(),
    {
        let mut r = self.format_date();
        r.append(" ");
        r.append(pad2_str(self.hour).as_str());
        r.append(":");
        r.append(pad2_str(self.minute).as_str());
        r.append(":");
        r.append(pad2_str(self.second).as_str());
        r
    }
}

/// Extra information sent along with an order.
#[derive(Clone, Debug)]
pub struct OrderMeta {
    /// the affiliate code to attribute the order to
    pub aff_code: String,
}

impl OrderMeta {
    pub fn new(aff_code: String) -> (r: OrderMeta)
        ensures
            r.aff_code == aff_code,
    {
        OrderMeta { aff_code }
    }
}

/// Why an order form refused a builder call.
#[derive(Clone, Copy, Debug, PartialEq, Eq, Structural)]
pub enum OrderFormError {
    /// the price being set is not meaningful for this order type
    InvalidOrderType,
    /// an OCO stop price needs the OCO flag, and no flags are set
    NoFlagsSet,
    /// an OCO stop price needs the OCO flag, and it is not set
    OcoFlagNotSet,
}

/// An outgoing order request, built from plain values. Prices and amounts
/// are exact decimals; the transport serializes them.
#[derive(Clone, Debug)]
pub struct OrderForm {
    /// group id for the order
    pub gid: Option<u32>,
    /// client order id; should be unique in the day (not enforced)
    pub cid: Option<u32>,
    /// the order type
    pub order_type: OrderKind,
    /// symbol of the desired pair
    pub symbol: String,
    /// price of the order
    pub price: Number,
    /// amount: positive to buy, negative to sell
    pub amount: Number,
    /// order flag bits, if any
    pub flags: Option<u32>,
    /// leverage for a derivative order, 1 to 100; the exchange defaults to 10
    pub leverage: Option<u32>,
    /// trailing price, for a trailing stop order
    pub price_trailing: Option<Number>,
    /// auxiliary limit price, for a stop limit order
    pub price_aux_limit: Option<Number>,
    /// OCO stop price
    pub price_oco_stop: Option<Number>,
    /// time-in-force: when to cancel the order, `YYYY-MM-DD HH:MM:SS`
    pub tif: Option<String>,
    /// extra order information
    pub meta: Option<OrderMeta>,
}

impl OrderForm {
    /// A fresh order form: no optional fields, and the empty flag set.
    pub fn new(symbol: String, price: Number, amount: Number, order_type: OrderKind) -> (r:
        OrderForm)
        ensures
            r.gid is None,
            r.cid is None,
            r.order_type == order_type,
            r.symbol == symbol,
            r.price == price,
            r.amount == amount,
            r.flags == Some(0u32),
            r.leverage is None,
            r.price_trailing is None,
            r.price_aux_limit is None,
            r.price_oco_stop is None,
            r.tif is None,
            r.meta is None,
    {
        OrderForm {
            gid: None,
            cid: None,
            order_type,
            symbol,
            price,
            amount,
            flags: Some(OrderFlags::empty().bits()),
            leverage: None,
            price_trailing: None,
            price_aux_limit: None,
            price_oco_stop: None,
            tif: None,
            meta: None,
        }
    }

    pub fn with_gid(self, gid: Option<u32>) -> (r: OrderForm)
        ensures
            r == (OrderForm { gid, ..self }),
    {
        OrderForm { gid, ..self }
    }

    pub fn with_cid(self, cid: Option<u32>) -> (r: OrderForm)
        ensures
            r == (OrderForm { cid, ..self }),
    {
        OrderForm { cid, ..self }
    }

    pub fn with_flags(self, flags: Option<OrderFlags>) -> (r: OrderForm)
        ensures
            r == (OrderForm {
                flags: match flags {
                    Some(f) => Some(f.bits),
                    None => None,
                },
                ..self
            }),
    {
        let bits: Option<u32> = match flags {
            Some(f) => Some(f.bits()),
            None => None,
        };
        OrderForm { flags: bits, ..self }
    }

    pub fn with_leverage(self, leverage: Option<u32>) -> (r: OrderForm)
        ensures
            r == (OrderForm { leverage, ..self }),
    {
        OrderForm { leverage, ..self }
    }

    /// Set the trailing price. Meaningful only on a trailing stop order;
    /// refused with `InvalidOrderType` on every other order type.
    pub fn with_price_trailing(self, trailing: Option<Number>) -> (r: Result<
        OrderForm,
        OrderFormError,
    >)
        ensures
            self.order_type == OrderKind::TrailingStop ==> r == Ok::<OrderForm, OrderFormError>(
                OrderForm { price_trailing: trailing, ..self },
            ),
            self.order_type != OrderKind::TrailingStop ==> r == Err::<OrderForm, OrderFormError>(
                OrderFormError::InvalidOrderType,
            ),
    {
        match self.order_type {
            OrderKind::TrailingStop => Ok(OrderForm { price_trailing: trailing, ..self }),
            _ => Err(OrderFormError::InvalidOrderType),
        }
    }

    /// Set the auxiliary limit price. Meaningful only on a stop limit order;
    /// refused with `InvalidOrderType` on every other order type.
    pub fn with_price_aux_limit(self, limit: Option<Number>) -> (r: Result<
        OrderForm,
        OrderFormError,
    >)
        ensures
            (self.order_type == OrderKind::StopLimit || self.order_type
                == OrderKind::ExchangeStopLimit) ==> r == Ok::<OrderForm, OrderFormError>(
                OrderForm { price_aux_limit: limit, ..self },
            ),
            !(self.order_type == OrderKind::StopLimit || self.order_type
                == OrderKind::ExchangeStopLimit) ==> r == Err::<OrderForm, OrderFormError>(
                OrderFormError::InvalidOrderType,
            ),
    {
        match self.order_type {
            OrderKind::StopLimit | OrderKind::ExchangeStopLimit => Ok(
                OrderForm { price_aux_limit: limit, ..self },
            ),
            _ => Err(OrderFormError::InvalidOrderType),
        }
    }

    /// Set the OCO stop price. Allowed exactly when flags are set, the set
    /// bits are all known, and the OCO flag is among them.
    pub fn with_price_oco_stop(self, oco_stop: Option<Number>) -> (r: Result<
        OrderForm,
        OrderFormError,
    >)
        ensures
            match self.flags {
                None => r == Err::<OrderForm, OrderFormError>(OrderFormError::NoFlagsSet),
                Some(bits) => if bits & !KNOWN_FLAGS == 0 && bits & FLAG_OCO == FLAG_OCO {
                    r == Ok::<OrderForm, OrderFormError>(
                        OrderForm { price_oco_stop: oco_stop, ..self },
                    )
                } else {
                    r == Err::<OrderForm, OrderFormError>(OrderFormError::OcoFlagNotSet)
                },
            },
    {
        match self.flags {
            None => Err(OrderFormError::NoFlagsSet),
            Some(bits) => {
                match OrderFlags::from_bits(bits) {
                    Some(f) => {
                        if f.contains(OrderFlags::oco()) {
                            Ok(OrderForm { price_oco_stop: oco_stop, ..self })
                        } else {
                            Err(OrderFormError::OcoFlagNotSet)
                        }
                    },
                    None => Err(OrderFormError::OcoFlagNotSet),
                }
            },
        }
    }

    /// Set the time-in-force: the order is cancelled at the given calendar
    /// time, written as `YYYY-MM-DD HH:MM:SS`.
    pub fn with_tif(self, tif: Option<DateTime>) -> (r: OrderForm)
        ensures
            match tif {
                Some(t) => r.tif matches Some(s) && s@ == t.spec_datetime(),
                None => r.tif is None,
            },
            r.gid == self.gid,
            r.cid == self.cid,
            r.order_type == self.order_type,
            r.symbol == self.symbol,
            r.price == self.price,
            r.amount == self.amount,
            r.flags == self.flags,
            r.leverage == self.leverage,
            r.price_trailing == self.price_trailing,
            r.price_aux_limit == self.price_aux_limit,
            r.price_oco_stop == self.price_oco_stop,
            r.meta == self.meta,
    {
        let formatted: Option<String> = match tif {
            Some(t) => Some(t.format_datetime()),
            None => None,
        };
        OrderForm { tif: formatted, ..self }
    }

    pub fn with_meta(self, meta: Option<OrderMeta>) -> (r: OrderForm)
        ensures
            r == (OrderForm { meta, ..self }),
    {
        OrderForm { meta, ..self }
    }
}

/// An outgoing order cancellation: by order id, or by client id and the day
/// the client id belongs to.
#[derive(Clone, Debug)]
pub struct CancelOrderForm {
    pub id: Option<u64>,
    pub client_id: Option<u64>,
    /// the client id's day, `YYYY-MM-DD`
    pub client_id_date: Option<String>,
}

impl CancelOrderForm {
    /// Cancel by order id.
    pub fn from_id(id: u64) -> (r: CancelOrderForm)
        ensures
            r.id == Some(id),
            r.client_id is None,
            r.client_id_date is None,
    {
        CancelOrderForm { id: Some(id), client_id: None, client_id_date: None }
    }

    /// Cancel by client order id and the day it was issued.
    pub fn from_client(client_id: u64, client_id_date: DateTime) -> (r: CancelOrderForm)
        ensures
            r.id is None,
            r.client_id == Some(client_id),
            r.client_id_date matches Some(s) && s@ == client_id_date.spec_date(),
    {
        CancelOrderForm {
            id: None,
            client_id: Some(client_id),
            client_id_date: Some(client_id_date.format_date()),
        }
    }
}

impl From<ActiveOrder> for CancelOrderForm {
    /// Cancel the given order, by its order id.
    fn from(o: ActiveOrder) -> (r: CancelOrderForm) {
        CancelOrderForm::from_id(o.id)
    }
}

impl vstd::std_specs::convert::FromSpecImpl<ActiveOrder> for CancelOrderForm {
    open spec fn obeys_from_spec() -> bool {
        true
    }

    open spec fn from_spec(o: ActiveOrder) -> CancelOrderForm {
        CancelOrderForm { id: Some(o.id), client_id: None, client_id_date: None }
    }
}

/// An order as order listings carry it: one flat positional record.
#[derive(Clone, Debug)]
pub struct ActiveOrder {
    pub id: u64,
    pub group_id: Option<u64>,
    pub client_id: u64,
    pub symbol: String,
    pub creation_timestamp: u64,
    pub update_timestamp: u64,
    /// positive means buy, negative means sell
    pub amount: Number,
    pub amount_original: Number,
    pub order_type: OrderKind,
    pub previous_order_type: Option<OrderKind>,
    pub flags: OrderFlags,
    pub order_status: String,
    pub price: Number,
    /// average fill price; the wire writes `0` for "not set"
    pub price_avg: Option<Number>,
    /// trailing price; the wire writes `0` for "not set"
    pub price_trailing: Option<Number>,
    /// auxiliary limit price; the wire writes `0` for "not set"
    pub price_aux_limit: Option<Number>,
    pub hidden: bool,
    pub placed_id: Option<u64>,
    pub routing: Option<String>,
}

/// The sentinel the wire writes where an optional price is absent.
pub open spec fn zero_number() -> Number {
    Number { neg: false, mag: 0, scale: 0 }
}

/// The rule table of the active-order record: twenty-six slots, of which
/// six are reserved placeholders.
pub open spec fn active_order_rules() -> Seq<Rule> {
    seq![
        Rule::Slot(SimpleRule::Required(Kind::Uint)),  // 0: order id
        Rule::Slot(SimpleRule::Optional(Kind::Uint)),  // 1: group id
        Rule::Slot(SimpleRule::Required(Kind::Uint)),  // 2: client id
        Rule::Slot(SimpleRule::Required(Kind::Str)),  // 3: symbol
        Rule::Slot(SimpleRule::Required(Kind::Uint)),  // 4: creation timestamp
        Rule::Slot(SimpleRule::Required(Kind::Uint)),  // 5: update timestamp
        Rule::Slot(SimpleRule::Required(Kind::Num)),  // 6: amount
        Rule::Slot(SimpleRule::Required(Kind::Num)),  // 7: original amount
        Rule::Slot(SimpleRule::Required(Kind::Str)),  // 8: order type
        Rule::Slot(SimpleRule::Optional(Kind::Str)),  // 9: previous order type
        Rule::Slot(SimpleRule::Skip),  // 10
        Rule::Slot(SimpleRule::Skip),  // 11
        Rule::Slot(SimpleRule::Flags),  // 12: order flags
        Rule::Slot(SimpleRule::Required(Kind::Str)),  // 13: order status
        Rule::Slot(SimpleRule::Skip),  // 14
        Rule::Slot(SimpleRule::Skip),  // 15
        Rule::Slot(SimpleRule::Required(Kind::Num)),  // 16: price
        Rule::Slot(SimpleRule::OptionalSentinel(zero_number())),  // 17: average price
        Rule::Slot(SimpleRule::OptionalSentinel(zero_number())),  // 18: trailing price
        Rule::Slot(SimpleRule::OptionalSentinel(zero_number())),  // 19: aux limit price
        Rule::Slot(SimpleRule::Skip),  // 20
        Rule::Slot(SimpleRule::Skip),  // 21
        Rule::Slot(SimpleRule::Skip),  // 22
        Rule::Slot(SimpleRule::Required(Kind::BoolFromUint)),  // 23: hidden
        Rule::Slot(SimpleRule::Optional(Kind::Uint)),  // 24: placed id
        Rule::Slot(SimpleRule::Optional(Kind::Str)),  // 25: routing
    ]
}

fn build_active_order_rules() -> (r: Vec<Rule>)
    ensures
        r@ == active_order_rules(),
{
    let mut r: Vec<Rule> = Vec::new();
    r.push(Rule::Slot(SimpleRule::Required(Kind::Uint)));
    r.push(Rule::Slot(SimpleRule::Optional(Kind::Uint)));
    r.push(Rule::Slot(SimpleRule::Required(Kind::Uint)));
    r.push(Rule::Slot(SimpleRule::Required(Kind::Str)));
    r.push(Rule::Slot(SimpleRule::Required(Kind::Uint)));
    r.push(Rule::Slot(SimpleRule::Required(Kind::Uint)));
    r.push(Rule::Slot(SimpleRule::Required(Kind::Num)));
    r.push(Rule::Slot(SimpleRule::Required(Kind::Num)));
    r.push(Rule::Slot(SimpleRule::Required(Kind::Str)));
    r.push(Rule::Slot(SimpleRule::Optional(Kind::Str)));
    r.push(Rule::Slot(SimpleRule::Skip));
    r.push(Rule::Slot(SimpleRule::Skip));
    r.push(Rule::Slot(SimpleRule::Flags));
    r.push(Rule::Slot(SimpleRule::Required(Kind::Str)));
    r.push(Rule::Slot(SimpleRule::Skip));
    r.push(Rule::Slot(SimpleRule::Skip));
    r.push(Rule::Slot(SimpleRule::Required(Kind::Num)));
    r.push(Rule::Slot(SimpleRule::OptionalSentinel(Number { neg: false, mag: 0, scale: 0 })));
    r.push(Rule::Slot(SimpleRule::OptionalSentinel(Number { neg: false, mag: 0, scale: 0 })));
    r.push(Rule::Slot(SimpleRule::OptionalSentinel(Number { neg: false, mag: 0, scale: 0 })));
    r.push(Rule::Slot(SimpleRule::Skip));
    r.push(Rule::Slot(SimpleRule::Skip));
    r.push(Rule::Slot(SimpleRule::Skip));
    r.push(Rule::Slot(SimpleRule::Required(Kind::BoolFromUint)));
    r.push(Rule::Slot(SimpleRule::Optional(Kind::Uint)));
    r.push(Rule::Slot(SimpleRule::Optional(Kind::Str)));
    proof {
        assert(r@ =~= active_order_rules());
    }
    r
}

/// Whether the array decodes as an active order: the rule table accepts it
/// and the order-type strings are known.
pub open spec fn active_order_decodes(arr: Seq<JsonValue>) -> bool {
    &&& record_ok(active_order_rules(), arr)
    &&& order_kind_of(arr[8]->Str_0@) is Some
    &&& (arr[9] is Null || order_kind_of(arr[9]->Str_0@) is Some)
}

/// The error a failing active-order decode reports: the engine's error, or
/// the first unknown order-type string.
pub open spec fn active_order_error(arr: Seq<JsonValue>) -> DecodeError {
    if !record_ok(active_order_rules(), arr) {
        record_error(active_order_rules(), arr)
    } else if order_kind_of(arr[8]->Str_0@) is None {
        DecodeError { field: 8, column: None, reason: DecodeReason::UnknownVariant }
    } else {
        DecodeError { field: 9, column: None, reason: DecodeReason::UnknownVariant }
    }
}

impl ActiveOrder {
    /// How a decoded active order relates to the wire array it came from,
    /// slot by slot.
    pub open spec fn wire_matches(self, arr: Seq<JsonValue>) -> bool {
        &&& self.id == arr[0]->Num_0.mag
        &&& self.group_id == (if arr[1] is Null {
            None
        } else {
            Some(arr[1]->Num_0.mag)
        })
        &&& self.client_id == arr[2]->Num_0.mag
        &&& self.symbol@ == arr[3]->Str_0@
        &&& self.creation_timestamp == arr[4]->Num_0.mag
        &&& self.update_timestamp == arr[5]->Num_0.mag
        &&& self.amount == arr[6]->Num_0
        &&& self.amount_original == arr[7]->Num_0
        &&& Some(self.order_type) == order_kind_of(arr[8]->Str_0@)
        &&& self.previous_order_type == (if arr[9] is Null {
            None
        } else {
            order_kind_of(arr[9]->Str_0@)
        })
        &&& Ok::<OrderFlags, DecodeReason>(self.flags) == spec_flags_value(arr[12])
        &&& self.order_status@ == arr[13]->Str_0@
        &&& self.price == arr[16]->Num_0
        &&& self.price_avg == (if arr[17]->Num_0 == zero_number() {
            None
        } else {
            Some(arr[17]->Num_0)
        })
        &&& self.price_trailing == (if arr[18]->Num_0 == zero_number() {
            None
        } else {
            Some(arr[18]->Num_0)
        })
        &&& self.price_aux_limit == (if arr[19]->Num_0 == zero_number() {
            None
        } else {
            Some(arr[19]->Num_0)
        })
        &&& self.hidden == (arr[23]->Num_0.mag > 0)
        &&& self.placed_id == (if arr[24] is Null {
            None
        } else {
            Some(arr[24]->Num_0.mag)
        })
        &&& match self.routing {
            Some(s) => !(arr[25] is Null) && s@ == arr[25]->Str_0@,
            None => arr[25] is Null,
        }
    }

    /// Decode one active-order record from its flat positional array.
    /// Strict: the first unsatisfiable slot fails the whole record; trailing
    /// extra elements are ignored.
    pub fn decode(arr: &Vec<JsonValue>) -> (r: Result<ActiveOrder, DecodeError>)
        ensures
            match r {
                Ok(o) => active_order_decodes(arr@) && o.wire_matches(arr@),
                Err(e) => !active_order_decodes(arr@) && e == active_order_error(arr@),
            },
    {
        let rules = build_active_order_rules();
        let fields = match decode_record(&rules, arr) {
            Ok(fields) => fields,
            Err(e) => {
                return Err(e);
            },
        };
        let order_type = match OrderKind::from_wire(fields[8].as_string().as_str()) {
            Some(k) => k,
            None => {
                return Err(
                    DecodeError { field: 8, column: None, reason: DecodeReason::UnknownVariant },
                );
            },
        };
        let previous_order_type = match fields[9].as_opt_string() {
            None => None,
            Some(s) => {
                match OrderKind::from_wire(s.as_str()) {
                    Some(k) => Some(k),
                    None => {
                        return Err(
                            DecodeError {
                                field: 9,
                                column: None,
                                reason: DecodeReason::UnknownVariant,
                            },
                        );
                    },
                }
            },
        };
        Ok(
            ActiveOrder {
                id: fields[0].as_u64(),
                group_id: fields[1].as_opt_u64(),
                client_id: fields[2].as_u64(),
                symbol: fields[3].as_string(),
                creation_timestamp: fields[4].as_u64(),
                update_timestamp: fields[5].as_u64(),
                amount: fields[6].as_num(),
                amount_original: fields[7].as_num(),
                order_type,
                previous_order_type,
                flags: fields[12].as_flags(),
                order_status: fields[13].as_string(),
                price: fields[16].as_num(),
                price_avg: fields[17].as_opt_num(),
                price_trailing: fields[18].as_opt_num(),
                price_aux_limit: fields[19].as_opt_num(),
                hidden: fields[23].as_bool(),
                placed_id: fields[24].as_opt_u64(),
                routing: fields[25].as_opt_string(),
            },
        )
    }

    pub fn id(&self) -> (r: u64)
        ensures
            r == self.id,
    {
        self.id
    }

    pub fn group_id(&self) -> (r: Option<u64>)
        ensures
            r == self.group_id,
    {
        self.group_id
    }

    pub fn client_id(&self) -> (r: u64)
        ensures
            r == self.client_id,
    {
        self.client_id
    }

    pub fn symbol(&self) -> (r: &str)
        ensures
            r@ == self.symbol@,
    {
        self.symbol.as_str()
    }

    pub fn creation_timestamp(&self) -> (r: u64)
        ensures
            r == self.creation_timestamp,
    {
        self.creation_timestamp
    }

    pub fn update_timestamp(&self) -> (r: u64)
        ensures
            r == self.update_timestamp,
    {
        self.update_timestamp
    }

    pub fn amount(&self) -> (r: Number)
        ensures
            r == self.amount,
    {
        self.amount
    }

    pub fn amount_original(&self) -> (r: Number)
        ensures
            r == self.amount_original,
    {
        self.amount_original
    }

    pub fn order_type(&self) -> (r: OrderKind)
        ensures
            r == self.order_type,
    {
        self.order_type
    }

    pub fn previous_order_type(&self) -> (r: Option<OrderKind>)
        ensures
            r == self.previous_order_type,
    {
        self.previous_order_type
    }

    pub fn flags(&self) -> (r: OrderFlags)
        ensures
            r == self.flags,
    {
        self.flags
    }

    pub fn order_status(&self) -> (r: &str)
        ensures
            r@ == self.order_status@,
    {
        self.order_status.as_str()
    }

    pub fn price(&self) -> (r: Number)
        ensures
            r == self.price,
    {
        self.price
    }

    pub fn price_avg(&self) -> (r: Option<Number>)
        ensures
            r == self.price_avg,
    {
        self.price_avg
    }

    pub fn price_trailing(&self) -> (r: Option<Number>)
        ensures
            r == self.price_trailing,
    {
        self.price_trailing
    }

    pub fn price_aux_limit(&self) -> (r: Option<Number>)
        ensures
            r == self.price_aux_limit,
    {
        self.price_aux_limit
    }

    pub fn hidden(&self) -> (r: bool)
        ensures
            r == self.hidden,
    {
        self.hidden
    }

    pub fn placed_id(&self) -> (r: Option<u64>)
        ensures
            r == self.placed_id,
    {
        self.placed_id
    }

    pub fn routing(&self) -> (r: &Option<String>)
        ensures
            r == self.routing,
    {
        &self.routing
    }
}

} // verus!
