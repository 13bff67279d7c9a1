//! The typed records that authenticated responses decode to.
//!
//! Order and wallet-transfer responses arrive wrapped in the notification
//! envelope; trade rows and the account fee schedule arrive as bare arrays.
//! Each record's positional layout is one rule table, applied by the generic
//! engine; the closed wire enumerations are mapped afterwards, and an
//! unknown wire string fails the record rather than defaulting.
//!
//! In a decode error, envelope failures name outer slots, record failures
//! name slots of the inner field sequence, and a `column` names the place
//! inside a nested row.

use crate::account::{wallet_kind_of, WalletKind};
use crate::envelope::{
    decode_envelope, envelope_error, envelope_inner, envelope_message_id, envelope_ok, Envelope,
};
use crate::errors::{DecodeError, DecodeReason};
use crate::flags::{spec_flags_value, OrderFlags};
use crate::json::JsonValue;
use crate::num::Number;
use crate::orders::{order_kind_of, zero_number, OrderKind};
use crate::schema::{
    decode_flat, decode_record, flat_error, flat_ok, record_error, record_ok, Kind, Rule,
    SimpleRule,
};
use crate::text::str_eq;
use vstd::prelude::*;

verus! {

/// The status a notification reports. A closed enumeration of wire strings.
#[derive(Clone, Copy, Debug, PartialEq, Eq, Structural)]
pub enum ResponseStatus {
    Success,
    Error,
    Failure,
}

/// The response status a wire string names, if any.
pub open spec fn response_status_of(s: Seq<char>) -> Option<ResponseStatus> {
    if s == "SUCCESS"@ {
        Some(ResponseStatus::Success)
    } else if s == "ERROR"@ {
        Some(ResponseStatus::Error)
    } else if s == "FAILUR"@ {
        Some(ResponseStatus::Failure)
    } else {
        None
    }
}

impl ResponseStatus {
    /// The wire name of the status.
    pub open spec fn spec_wire(self) -> Seq<char> {
        match self {
            ResponseStatus::Success => "SUCCESS"@,
            ResponseStatus::Error => "ERROR"@,
            ResponseStatus::Failure => "FAILUR"@,
        }
    }

    /// The response status a wire string names, exactly when it names one.
    pub fn from_wire(s: &str) -> (r: Option<ResponseStatus>)
        ensures
            r == response_status_of(s@),
    {
        if str_eq(s, "SUCCESS") {
            Some(ResponseStatus::Success)
        } else if str_eq(s, "ERROR") {
            Some(ResponseStatus::Error)
        } else if str_eq(s, "FAILUR") {
            Some(ResponseStatus::Failure)
        } else {
            None
        }
    }
}

/// The wire mapping is a bijection on its enumeration: reading back the
/// wire name of any response status yields that same status.
pub proof fn lemma_response_status_round_trip(k: ResponseStatus)
    ensures
        response_status_of(k.spec_wire()) == Some(k),
{
    reveal_strlit("SUCCESS");
    reveal_strlit("ERROR");
    reveal_strlit("FAILUR");
    assert("SUCCESS"@.len() == 7);
    assert("ERROR"@.len() == 5);
    assert("FAILUR"@.len() == 6);
}

/// What kind of wallet-transfer notification arrived.
#[derive(Clone, Copy, Debug, PartialEq, Eq, Structural)]
pub enum WalletTransferResponseKind {
    AccountTransfer,
}

/// The transfer-notification kind a wire tag names, if any.
pub open spec fn wallet_transfer_kind_of(s: Seq<char>) -> Option<WalletTransferResponseKind> {
    if s == "acc_tf"@ {
        Some(WalletTransferResponseKind::AccountTransfer)
    } else {
        None
    }
}

impl WalletTransferResponseKind {
    pub fn from_wire(s: &str) -> (r: Option<WalletTransferResponseKind>)
        ensures
            r == wallet_transfer_kind_of(s@),
    {
        if str_eq(s, "acc_tf") {
            Some(WalletTransferResponseKind::AccountTransfer)
        } else {
            None
        }
    }
}

/// The purpose of an order notification.
#[derive(Clone, Copy, Debug, PartialEq, Eq, Structural)]
pub enum OrderResponseKind {
    NewOrderRequest,
    CancelOrderRequest,
    Uca,
    FundingNewOrderRequest,
    FundingCancelOrderRequest,
}

/// The order-notification kind a wire tag names, if any.
pub open spec fn order_response_kind_of(s: Seq<char>) -> Option<OrderResponseKind> {
    if s == "on-req"@ {
        Some(OrderResponseKind::NewOrderRequest)
    } else if s == "oc-req"@ {
        Some(OrderResponseKind::CancelOrderRequest)
    } else if s == "uca"@ {
        Some(OrderResponseKind::Uca)
    } else if s == "fon-req"@ {
        Some(OrderResponseKind::FundingNewOrderRequest)
    } else if s == "foc-req"@ {
        Some(OrderResponseKind::FundingCancelOrderRequest)
    } else {
        None
    }
}

impl OrderResponseKind {
    /// The wire tag of the kind.
    pub open spec fn spec_wire(self) -> Seq<char> {
        match self {
            OrderResponseKind::NewOrderRequest => "on-req"@,
            OrderResponseKind::CancelOrderRequest => "oc-req"@,
            OrderResponseKind::Uca => "uca"@,
            OrderResponseKind::FundingNewOrderRequest => "fon-req"@,
            OrderResponseKind::FundingCancelOrderRequest => "foc-req"@,
        }
    }

    pub fn from_wire(s: &str) -> (r: Option<OrderResponseKind>)
        ensures
            r == order_response_kind_of(s@),
    {
        if str_eq(s, "on-req") {
            Some(OrderResponseKind::NewOrderRequest)
        } else if str_eq(s, "oc-req") {
            Some(OrderResponseKind::CancelOrderRequest)
        } else if str_eq(s, "uca") {
            Some(OrderResponseKind::Uca)
        } else if str_eq(s, "fon-req") {
            Some(OrderResponseKind::FundingNewOrderRequest)
        } else if str_eq(s, "foc-req") {
            Some(OrderResponseKind::FundingCancelOrderRequest)
        } else {
            None
        }
    }
}

/// The wire mapping is a bijection on its enumeration: reading back the
/// wire tag of any order-notification kind yields that same kind.
pub proof fn lemma_order_response_kind_round_trip(k: OrderResponseKind)
    ensures
        order_response_kind_of(k.spec_wire()) == Some(k),
{
    reveal_strlit("on-req");
    reveal_strlit("oc-req");
    reveal_strlit("uca");
    reveal_strlit("fon-req");
    reveal_strlit("foc-req");
    assert("on-req"@.len() == 6);
    assert("oc-req"@.len() == 6);
    assert("uca"@.len() == 3);
    assert("fon-req"@.len() == 7);
    assert("foc-req"@.len() == 7);
    assert("oc-req"@[1] != "on-req"@[1]);
    assert("foc-req"@[2] != "fon-req"@[2]);
}

/// A wallet-transfer notification: the envelope's outer slots, and the
/// eight-slot inner transfer record.
#[derive(Clone, Debug)]
pub struct WalletTransferResponse {
    /// millisecond timestamp of the update
    pub mts: u64,
    pub response_type: WalletTransferResponseKind,
    /// unique id of the message
    pub id: Option<u64>,
    /// millisecond timestamp when the transfer was created
    pub mts_update: u64,
    /// starting wallet
    pub from: WalletKind,
    /// destination wallet
    pub to: WalletKind,
    /// currency
    pub symbol_from: String,
    /// destination currency
    pub symbol_to: Option<String>,
    /// amount of the transfer
    pub amount: Number,
    /// status of the notification
    pub status: ResponseStatus,
    /// text of the notification
    pub text: String,
}

/// The rule table of the inner wallet-transfer record.
pub open spec fn wallet_transfer_rules() -> Seq<Rule> {
    seq![
        Rule::Slot(SimpleRule::Required(Kind::Uint)),  // 0: update timestamp
        Rule::Slot(SimpleRule::Required(Kind::Str)),  // 1: starting wallet
        Rule::Slot(SimpleRule::Required(Kind::Str)),  // 2: destination wallet
        Rule::Slot(SimpleRule::Skip),  // 3
        Rule::Slot(SimpleRule::Required(Kind::Str)),  // 4: source currency
        Rule::Slot(SimpleRule::Optional(Kind::Str)),  // 5: destination currency
        Rule::Slot(SimpleRule::Skip),  // 6
        Rule::Slot(SimpleRule::Required(Kind::Num)),  // 7: amount
    ]
}

fn build_wallet_transfer_rules() -> (r: Vec<Rule>)
    ensures
        r@ == wallet_transfer_rules(),
{
    let mut r: Vec<Rule> = Vec::new();
    r.push(Rule::Slot(SimpleRule::Required(Kind::Uint)));
    r.push(Rule::Slot(SimpleRule::Required(Kind::Str)));
    r.push(Rule::Slot(SimpleRule::Required(Kind::Str)));
    r.push(Rule::Slot(SimpleRule::Skip));
    r.push(Rule::Slot(SimpleRule::Required(Kind::Str)));
    r.push(Rule::Slot(SimpleRule::Optional(Kind::Str)));
    r.push(Rule::Slot(SimpleRule::Skip));
    r.push(Rule::Slot(SimpleRule::Required(Kind::Num)));
    proof {
        assert(r@ =~= wallet_transfer_rules());
    }
    r
}

/// Whether the outer array decodes as a wallet-transfer notification.
pub open spec fn wallet_transfer_decodes(arr: Seq<JsonValue>) -> bool {
    &&& envelope_ok(arr)
    &&& wallet_transfer_kind_of(arr[1]->Str_0@) is Some
    &&& record_ok(wallet_transfer_rules(), envelope_inner(arr))
    &&& wallet_kind_of(envelope_inner(arr)[1]->Str_0@) is Some
    &&& wallet_kind_of(envelope_inner(arr)[2]->Str_0@) is Some
    &&& response_status_of(arr[6]->Str_0@) is Some
}

/// The error a failing wallet-transfer decode reports.
pub open spec fn wallet_transfer_error(arr: Seq<JsonValue>) -> DecodeError {
    if !envelope_ok(arr) {
        envelope_error(arr)
    } else if wallet_transfer_kind_of(arr[1]->Str_0@) is None {
        DecodeError { field: 1, column: None, reason: DecodeReason::UnknownVariant }
    } else if !record_ok(wallet_transfer_rules(), envelope_inner(arr)) {
        record_error(wallet_transfer_rules(), envelope_inner(arr))
    } else if wallet_kind_of(envelope_inner(arr)[1]->Str_0@) is None {
        DecodeError { field: 1, column: None, reason: DecodeReason::UnknownVariant }
    } else if wallet_kind_of(envelope_inner(arr)[2]->Str_0@) is None {
        DecodeError { field: 2, column: None, reason: DecodeReason::UnknownVariant }
    } else {
        DecodeError { field: 6, column: None, reason: DecodeReason::UnknownVariant }
    }
}

impl WalletTransferResponse {
    /// How a decoded transfer notification relates to the wire array it came
    /// from.
    pub open spec fn wire_matches(self, arr: Seq<JsonValue>) -> bool {
        let inner = envelope_inner(arr);
        &&& self.mts as nat == arr[0]->Num_0.spec_round_u64()
        &&& Some(self.response_type) == wallet_transfer_kind_of(arr[1]->Str_0@)
        &&& self.id == envelope_message_id(arr)
        &&& self.mts_update == inner[0]->Num_0.mag
        &&& Some(self.from) == wallet_kind_of(inner[1]->Str_0@)
        &&& Some(self.to) == wallet_kind_of(inner[2]->Str_0@)
        &&& self.symbol_from@ == inner[4]->Str_0@
        &&& match self.symbol_to {
            Some(s) => !(inner[5] is Null) && s@ == inner[5]->Str_0@,
            None => inner[5] is Null,
        }
        &&& self.amount == inner[7]->Num_0
        &&& Some(self.status) == response_status_of(arr[6]->Str_0@)
        &&& self.text@ == arr[7]->Str_0@
    }

    /// Decode one wallet-transfer notification from its outer envelope
    /// array, resolving the payload's nesting depth by inspection.
    pub fn decode(arr: &Vec<JsonValue>) -> (r: Result<WalletTransferResponse, DecodeError>)
        ensures
            match r {
                Ok(o) => wallet_transfer_decodes(arr@) && o.wire_matches(arr@),
                Err(e) => !wallet_transfer_decodes(arr@) && e == wallet_transfer_error(arr@),
            },
    {
        let env: Envelope = match decode_envelope(arr) {
            Ok(env) => env,
            Err(e) => {
                return Err(e);
            },
        };
        let response_type = match WalletTransferResponseKind::from_wire(env.kind.as_str()) {
            Some(k) => k,
            None => {
                return Err(
                    DecodeError { field: 1, column: None, reason: DecodeReason::UnknownVariant },
                );
            },
        };
        let rules = build_wallet_transfer_rules();
        let fields = match decode_record(&rules, env.inner) {
            Ok(fields) => fields,
            Err(e) => {
                return Err(e);
            },
        };
        let from = match WalletKind::from_wire(fields[1].as_string().as_str()) {
            Some(k) => k,
            None => {
                return Err(
                    DecodeError { field: 1, column: None, reason: DecodeReason::UnknownVariant },
                );
            },
        };
        let to = match WalletKind::from_wire(fields[2].as_string().as_str()) {
            Some(k) => k,
            None => {
                return Err(
                    DecodeError { field: 2, column: None, reason: DecodeReason::UnknownVariant },
                );
            },
        };
        let status = match ResponseStatus::from_wire(env.status.as_str()) {
            Some(k) => k,
            None => {
                return Err(
                    DecodeError { field: 6, column: None, reason: DecodeReason::UnknownVariant },
                );
            },
        };
        Ok(
            WalletTransferResponse {
                mts: env.mts,
                response_type,
                id: env.message_id,
                mts_update: fields[0].as_u64(),
                from,
                to,
                symbol_from: fields[4].as_string(),
                symbol_to: fields[5].as_opt_string(),
                amount: fields[7].as_num(),
                status,
                text: env.text.clone(),
            },
        )
    }

    pub fn mts(&self) -> (r: u64)
        ensures
            r == self.mts,
    {
        self.mts
    }

    pub fn response_type(&self) -> (r: &WalletTransferResponseKind)
        ensures
            r == self.response_type,
    {
        &self.response_type
    }

    pub fn id(&self) -> (r: Option<u64>)
        ensures
            r == self.id,
    {
        self.id
    }

    pub fn mts_update(&self) -> (r: u64)
        ensures
            r == self.mts_update,
    {
        self.mts_update
    }

    pub fn from(&self) -> (r: &WalletKind)
        ensures
            r == self.from,
    {
        &self.from
    }

    pub fn to(&self) -> (r: &WalletKind)
        ensures
            r == self.to,
    {
        &self.to
    }

    pub fn symbol_from(&self) -> (r: &str)
        ensures
            r@ == self.symbol_from@,
    {
        self.symbol_from.as_str()
    }

    pub fn symbol_to(&self) -> (r: &Option<String>)
        ensures
            r == self.symbol_to,
    {
        &self.symbol_to
    }

    pub fn amount(&self) -> (r: Number)
        ensures
            r == self.amount,
    {
        self.amount
    }

    pub fn status(&self) -> (r: &ResponseStatus)
        ensures
            r == self.status,
    {
        &self.status
    }

    pub fn text(&self) -> (r: &str)
        ensures
            r@ == self.text@,
    {
        self.text.as_str()
    }
}

/// An order notification: the envelope's outer slots, and the
/// thirty-one-slot inner order record.
#[derive(Clone, Debug)]
pub struct OrderResponse {
    /// millisecond timestamp of the update
    pub mts: u64,
    /// purpose of the notification
    pub response_type: OrderResponseKind,
    /// unique id of the message
    pub message_id: Option<u64>,
    /// order id
    pub id: u64,
    /// group id
    pub group_id: Option<u64>,
    /// client order id
    pub client_id: u64,
    /// pair
    pub symbol: String,
    /// millisecond timestamp of creation
    pub creation_timestamp: u64,
    /// millisecond timestamp of update
    pub update_timestamp: u64,
    /// positive means buy, negative means sell
    pub amount: Number,
    /// original amount
    pub amount_original: Number,
    pub order_type: OrderKind,
    pub previous_order_type: Option<OrderKind>,
    /// millisecond timestamp of time-in-force: automatic cancellation
    pub mts_tif: Option<u64>,
    pub order_status: String,
    pub price: Number,
    /// average price; the wire writes `0` for "not set"
    pub price_avg: Option<Number>,
    /// trailing price; the wire writes `0` for "not set"
    pub price_trailing: Option<Number>,
    /// auxiliary limit price; the wire writes `0` for "not set"
    pub price_aux_limit: Option<Number>,
    pub hidden: bool,
    /// the order that caused this order to be placed, for OCO
    pub placed_id: Option<u64>,
    /// origin of the action
    pub routing: String,
    pub flags: OrderFlags,
    /// extra order information
    pub meta: Option<String>,
    /// reserved by the wire; always zero
    pub code: u64,
    /// status of the notification
    pub status: String,
    /// text of the notification
    pub text: String,
}

/// The rule table of the inner order record.
pub open spec fn order_response_rules() -> Seq<Rule> {
    seq![
        Rule::Slot(SimpleRule::Required(Kind::Uint)),  // 0: order id
        Rule::Slot(SimpleRule::Optional(Kind::Uint)),  // 1: group id
        Rule::Slot(SimpleRule::Required(Kind::Uint)),  // 2: client id
        Rule::Slot(SimpleRule::Required(Kind::Str)),  // 3: symbol
        Rule::Slot(SimpleRule::Required(Kind::Uint)),  // 4: creation timestamp
        Rule::Slot(SimpleRule::Required(Kind::Uint)),  // 5: update timestamp
        Rule::Slot(SimpleRule::Required(Kind::Num)),  // 6: amount
        Rule::Slot(SimpleRule::Required(Kind::Num)),  // 7: original amount
        Rule::Slot(SimpleRule::Required(Kind::Str)),  // 8: order type
        Rule::Slot(SimpleRule::Optional(Kind::Str)),  // 9: previous order type
        Rule::Slot(SimpleRule::Optional(Kind::Uint)),  // 10: time-in-force timestamp
        Rule::Slot(SimpleRule::Skip),  // 11
        Rule::Slot(SimpleRule::Flags),  // 12: order flags
        Rule::Slot(SimpleRule::Required(Kind::Str)),  // 13: order status
        Rule::Slot(SimpleRule::Skip),  // 14
        Rule::Slot(SimpleRule::Skip),  // 15
        Rule::Slot(SimpleRule::Required(Kind::Num)),  // 16: price
        Rule::Slot(SimpleRule::OptionalSentinel(zero_number())),  // 17: average price
        Rule::Slot(SimpleRule::OptionalSentinel(zero_number())),  // 18: trailing price
        Rule::Slot(SimpleRule::OptionalSentinel(zero_number())),  // 19: aux limit price
        Rule::Slot(SimpleRule::Skip),  // 20
        Rule::Slot(SimpleRule::Skip),  // 21
        Rule::Slot(SimpleRule::Skip),  // 22
        Rule::Slot(SimpleRule::Required(Kind::BoolFromUint)),  // 23: hidden
        Rule::Slot(SimpleRule::Optional(Kind::Uint)),  // 24: placed id
        Rule::Slot(SimpleRule::Skip),  // 25
        Rule::Slot(SimpleRule::Skip),  // 26
        Rule::Slot(SimpleRule::Skip),  // 27
        Rule::Slot(SimpleRule::Required(Kind::Str)),  // 28: routing
        Rule::Slot(SimpleRule::Skip),  // 29
        Rule::Slot(SimpleRule::Optional(Kind::Str)),  // 30: meta
    ]
}

fn build_order_response_rules() -> (r: Vec<Rule>)
    ensures
        r@ == order_response_rules(),
{
    let mut r: Vec<Rule> = Vec::new();
    r.push(Rule::Slot(SimpleRule::Required(Kind::Uint)));
    r.push(Rule::Slot(SimpleRule::Optional(Kind::Uint)));
    r.push(Rule::Slot(SimpleRule::Required(Kind::Uint)));
    r.push(Rule::Slot(SimpleRule::Required(Kind::Str)));
    r.push(Rule::Slot(SimpleRule::Required(Kind::Uint)));
    r.push(Rule::Slot(SimpleRule::Required(Kind::Uint)));
    r.push(Rule::Slot(SimpleRule::Required(Kind::Num)));
    r.push(Rule::Slot(SimpleRule::Required(Kind::Num)));
    r.push(Rule::Slot(SimpleRule::Required(Kind::Str)));
    r.push(Rule::Slot(SimpleRule::Optional(Kind::Str)));
    r.push(Rule::Slot(SimpleRule::Optional(Kind::Uint)));
    r.push(Rule::Slot(SimpleRule::Skip));
    r.push(Rule::Slot(SimpleRule::Flags));
    r.push(Rule::Slot(SimpleRule::Required(Kind::Str)));
    r.push(Rule::Slot(SimpleRule::Skip));
    r.push(Rule::Slot(SimpleRule::Skip));
    r.push(Rule::Slot(SimpleRule::Required(Kind::Num)));
    r.push(Rule::Slot(SimpleRule::OptionalSentinel(Number { neg: false, mag: 0, scale: 0 })));
    r.push(Rule::Slot(SimpleRule::OptionalSentinel(Number { neg: false, mag: 0, scale: 0 })));
    r.push(Rule::Slot(SimpleRule::OptionalSentinel(Number { neg: false, mag: 0, scale: 0 })));
    r.push(Rule::Slot(SimpleRule::Skip));
    r.push(Rule::Slot(SimpleRule::Skip));
    r.push(Rule::Slot(SimpleRule::Skip));
    r.push(Rule::Slot(SimpleRule::Required(Kind::BoolFromUint)));
    r.push(Rule::Slot(SimpleRule::Optional(Kind::Uint)));
    r.push(Rule::Slot(SimpleRule::Skip));
    r.push(Rule::Slot(SimpleRule::Skip));
    r.push(Rule::Slot(SimpleRule::Skip));
    r.push(Rule::Slot(SimpleRule::Required(Kind::Str)));
    r.push(Rule::Slot(SimpleRule::Skip));
    r.push(Rule::Slot(SimpleRule::Optional(Kind::Str)));
    proof {
        assert(r@ =~= order_response_rules());
    }
    r
}

/// Whether the outer array decodes as an order notification.
pub open spec fn order_response_decodes(arr: Seq<JsonValue>) -> bool {
    &&& envelope_ok(arr)
    &&& order_response_kind_of(arr[1]->Str_0@) is Some
    &&& record_ok(order_response_rules(), envelope_inner(arr))
    &&& order_kind_of(envelope_inner(arr)[8]->Str_0@) is Some
    &&& (envelope_inner(arr)[9] is Null || order_kind_of(envelope_inner(arr)[9]->Str_0@) is Some)
}

/// The error a failing order-notification decode reports.
pub open spec fn order_response_error(arr: Seq<JsonValue>) -> DecodeError {
    if !envelope_ok(arr) {
        envelope_error(arr)
    } else if order_response_kind_of(arr[1]->Str_0@) is None {
        DecodeError { field: 1, column: None, reason: DecodeReason::UnknownVariant }
    } else if !record_ok(order_response_rules(), envelope_inner(arr)) {
        record_error(order_response_rules(), envelope_inner(arr))
    } else if order_kind_of(envelope_inner(arr)[8]->Str_0@) is None {
        DecodeError { field: 8, column: None, reason: DecodeReason::UnknownVariant }
    } else {
        DecodeError { field: 9, column: None, reason: DecodeReason::UnknownVariant }
    }
}

impl OrderResponse {
    /// How a decoded order notification relates to the wire array it came
    /// from.
    pub open spec fn wire_matches(self, arr: Seq<JsonValue>) -> bool {
        let inner = envelope_inner(arr);
        &&& self.mts as nat == arr[0]->Num_0.spec_round_u64()
        &&& Some(self.response_type) == order_response_kind_of(arr[1]->Str_0@)
        &&& self.message_id == envelope_message_id(arr)
        &&& self.id == inner[0]->Num_0.mag
        &&& self.group_id == (if inner[1] is Null {
            None
        } else {
            Some(inner[1]->Num_0.mag)
        })
        &&& self.client_id == inner[2]->Num_0.mag
        &&& self.symbol@ == inner[3]->Str_0@
        &&& self.creation_timestamp == inner[4]->Num_0.mag
        &&& self.update_timestamp == inner[5]->Num_0.mag
        &&& self.amount == inner[6]->Num_0
        &&& self.amount_original == inner[7]->Num_0
        &&& Some(self.order_type) == order_kind_of(inner[8]->Str_0@)
        &&& self.previous_order_type == (if inner[9] is Null {
            None
        } else {
            order_kind_of(inner[9]->Str_0@)
        })
        &&& self.mts_tif == (if inner[10] is Null {
            None
        } else {
            Some(inner[10]->Num_0.mag)
        })
        &&& Ok::<OrderFlags, DecodeReason>(self.flags) == spec_flags_value(inner[12])
        &&& self.order_status@ == inner[13]->Str_0@
        &&& self.price == inner[16]->Num_0
        &&& self.price_avg == (if inner[17]->Num_0 == zero_number() {
            None
        } else {
            Some(inner[17]->Num_0)
        })
        &&& self.price_trailing == (if inner[18]->Num_0 == zero_number() {
            None
        } else {
            Some(inner[18]->Num_0)
        })
        &&& self.price_aux_limit == (if inner[19]->Num_0 == zero_number() {
            None
        } else {
            Some(inner[19]->Num_0)
        })
        &&& self.hidden == (inner[23]->Num_0.mag > 0)
        &&& self.placed_id == (if inner[24] is Null {
            None
        } else {
            Some(inner[24]->Num_0.mag)
        })
        &&& self.routing@ == inner[28]->Str_0@
        &&& match self.meta {
            Some(s) => !(inner[30] is Null) && s@ == inner[30]->Str_0@,
            None => inner[30] is Null,
        }
        &&& self.code == 0
        &&& self.status@ == arr[6]->Str_0@
        &&& self.text@ == arr[7]->Str_0@
    }

    /// Decode one order notification from its outer envelope array,
    /// resolving the payload's nesting depth by inspection.
    pub fn decode(arr: &Vec<JsonValue>) -> (r: Result<OrderResponse, DecodeError>)
        ensures
            match r {
                Ok(o) => order_response_decodes(arr@) && o.wire_matches(arr@),
                Err(e) => !order_response_decodes(arr@) && e == order_response_error(arr@),
            },
    {
        let env: Envelope = match decode_envelope(arr) {
            Ok(env) => env,
            Err(e) => {
                return Err(e);
            },
        };
        let response_type = match OrderResponseKind::from_wire(env.kind.as_str()) {
            Some(k) => k,
            None => {
                return Err(
                    DecodeError { field: 1, column: None, reason: DecodeReason::UnknownVariant },
                );
            },
        };
        let rules = build_order_response_rules();
        let fields = match decode_record(&rules, env.inner) {
            Ok(fields) => fields,
            Err(e) => {
                return Err(e);
            },
        };
        let order_type = match OrderKind::from_wire(fields[8].as_string().as_str()) {
            Some(k) => k,
            None => {
                return Err(
                    DecodeError { field: 8, column: None, reason: DecodeReason::UnknownVariant },
                );
            },
        };
        let previous_order_type = match fields[9].as_opt_string() {
            None => None,
            Some(s) => {
                match OrderKind::from_wire(s.as_str()) {
                    Some(k) => Some(k),
                    None => {
                        return Err(
                            DecodeError {
                                field: 9,
                                column: None,
                                reason: DecodeReason::UnknownVariant,
                            },
                        );
                    },
                }
            },
        };
        Ok(
            OrderResponse {
                mts: env.mts,
                response_type,
                message_id: env.message_id,
                id: fields[0].as_u64(),
                group_id: fields[1].as_opt_u64(),
                client_id: fields[2].as_u64(),
                symbol: fields[3].as_string(),
                creation_timestamp: fields[4].as_u64(),
                update_timestamp: fields[5].as_u64(),
                amount: fields[6].as_num(),
                amount_original: fields[7].as_num(),
                order_type,
                previous_order_type,
                mts_tif: fields[10].as_opt_u64(),
                order_status: fields[13].as_string(),
                price: fields[16].as_num(),
                price_avg: fields[17].as_opt_num(),
                price_trailing: fields[18].as_opt_num(),
                price_aux_limit: fields[19].as_opt_num(),
                hidden: fields[23].as_bool(),
                placed_id: fields[24].as_opt_u64(),
                routing: fields[28].as_string(),
                flags: fields[12].as_flags(),
                meta: fields[30].as_opt_string(),
                code: 0,
                status: env.status.clone(),
                text: env.text.clone(),
            },
        )
    }

    pub fn mts(&self) -> (r: u64)
        ensures
            r == self.mts,
    {
        self.mts
    }

    pub fn response_type(&self) -> (r: &OrderResponseKind)
        ensures
            r == self.response_type,
    {
        &self.response_type
    }

    pub fn message_id(&self) -> (r: Option<u64>)
        ensures
            r == self.message_id,
    {
        self.message_id
    }

    pub fn id(&self) -> (r: u64)
        ensures
            r == self.id,
    {
        self.id
    }

    pub fn gid(&self) -> (r: Option<u64>)
        ensures
            r == self.group_id,
    {
        self.group_id
    }

    pub fn cid(&self) -> (r: u64)
        ensures
            r == self.client_id,
    {
        self.client_id
    }

    pub fn symbol(&self) -> (r: &str)
        ensures
            r@ == self.symbol@,
    {
        self.symbol.as_str()
    }

    pub fn mts_create(&self) -> (r: u64)
        ensures
            r == self.creation_timestamp,
    {
        self.creation_timestamp
    }

    pub fn mts_update(&self) -> (r: u64)
        ensures
            r == self.update_timestamp,
    {
        self.update_timestamp
    }

    pub fn amount(&self) -> (r: Number)
        ensures
            r == self.amount,
    {
        self.amount
    }

    pub fn amount_orig(&self) -> (r: Number)
        ensures
            r == self.amount_original,
    {
        self.amount_original
    }

    pub fn order_type(&self) -> (r: OrderKind)
        ensures
            r == self.order_type,
    {
        self.order_type
    }

    pub fn prev_order_type(&self) -> (r: Option<OrderKind>)
        ensures
            r == self.previous_order_type,
    {
        self.previous_order_type
    }

    pub fn mts_tif(&self) -> (r: Option<u64>)
        ensures
            r == self.mts_tif,
    {
        self.mts_tif
    }

    pub fn order_status(&self) -> (r: &str)
        ensures
            r@ == self.order_status@,
    {
        self.order_status.as_str()
    }

    pub fn price(&self) -> (r: Number)
        ensures
            r == self.price,
    {
        self.price
    }

    pub fn price_avg(&self) -> (r: Option<Number>)
        ensures
            r == self.price_avg,
    {
        self.price_avg
    }

    pub fn price_trailing(&self) -> (r: Option<Number>)
        ensures
            r == self.price_trailing,
    {
        self.price_trailing
    }

    pub fn price_aux_limit(&self) -> (r: Option<Number>)
        ensures
            r == self.price_aux_limit,
    {
        self.price_aux_limit
    }

    pub fn hidden(&self) -> (r: bool)
        ensures
            r == self.hidden,
    {
        self.hidden
    }

    pub fn placed_id(&self) -> (r: Option<u64>)
        ensures
            r == self.placed_id,
    {
        self.placed_id
    }

    pub fn routing(&self) -> (r: &str)
        ensures
            r@ == self.routing@,
    {
        self.routing.as_str()
    }

    pub fn flags(&self) -> (r: OrderFlags)
        ensures
            r == self.flags,
    {
        self.flags
    }

    pub fn meta(&self) -> (r: &Option<String>)
        ensures
            r == self.meta,
    {
        &self.meta
    }

    pub fn code(&self) -> (r: u64)
        ensures
            r == self.code,
    {
        self.code
    }

    pub fn status(&self) -> (r: &str)
        ensures
            r@ == self.status@,
    {
        self.status.as_str()
    }

    pub fn text(&self) -> (r: &str)
        ensures
            r@ == self.text@,
    {
        self.text.as_str()
    }
}

/// One executed trade, as trade listings carry it: a bare eleven-slot
/// positional array, no envelope.
#[derive(Clone, Debug)]
pub struct TradeResponse {
    pub trade_id: u64,
    pub symbol: String,
    pub execution_timestamp: u64,
    pub order_id: u64,
    /// positive means buy, negative means sell
    pub execution_amount: Number,
    pub execution_price: Number,
    pub order_type: Option<OrderKind>,
    pub order_price: Option<Number>,
    /// whether the trade was a maker trade
    pub is_maker: bool,
    pub fee: Number,
    pub fee_currency: String,
}

/// The rule table of the trade record.
pub open spec fn trade_rules() -> Seq<Rule> {
    seq![
        Rule::Slot(SimpleRule::Required(Kind::Uint)),  // 0: trade id
        Rule::Slot(SimpleRule::Required(Kind::Str)),  // 1: symbol
        Rule::Slot(SimpleRule::Required(Kind::Uint)),  // 2: execution timestamp
        Rule::Slot(SimpleRule::Required(Kind::Uint)),  // 3: order id
        Rule::Slot(SimpleRule::Required(Kind::Num)),  // 4: execution amount
        Rule::Slot(SimpleRule::Required(Kind::Num)),  // 5: execution price
        Rule::Slot(SimpleRule::Optional(Kind::Str)),  // 6: order type
        Rule::Slot(SimpleRule::Optional(Kind::Num)),  // 7: order price
        Rule::Slot(SimpleRule::Required(Kind::BoolFromInt)),  // 8: maker
        Rule::Slot(SimpleRule::Required(Kind::Num)),  // 9: fee
        Rule::Slot(SimpleRule::Required(Kind::Str)),  // 10: fee currency
    ]
}

fn build_trade_rules() -> (r: Vec<Rule>)
    ensures
        r@ == trade_rules(),
{
    let mut r: Vec<Rule> = Vec::new();
    r.push(Rule::Slot(SimpleRule::Required(Kind::Uint)));
    r.push(Rule::Slot(SimpleRule::Required(Kind::Str)));
    r.push(Rule::Slot(SimpleRule::Required(Kind::Uint)));
    r.push(Rule::Slot(SimpleRule::Required(Kind::Uint)));
    r.push(Rule::Slot(SimpleRule::Required(Kind::Num)));
    r.push(Rule::Slot(SimpleRule::Required(Kind::Num)));
    r.push(Rule::Slot(SimpleRule::Optional(Kind::Str)));
    r.push(Rule::Slot(SimpleRule::Optional(Kind::Num)));
    r.push(Rule::Slot(SimpleRule::Required(Kind::BoolFromInt)));
    r.push(Rule::Slot(SimpleRule::Required(Kind::Num)));
    r.push(Rule::Slot(SimpleRule::Required(Kind::Str)));
    proof {
        assert(r@ =~= trade_rules());
    }
    r
}

/// Whether the array decodes as a trade record.
pub open spec fn trade_decodes(arr: Seq<JsonValue>) -> bool {
    &&& record_ok(trade_rules(), arr)
    &&& (arr[6] is Null || order_kind_of(arr[6]->Str_0@) is Some)
}

/// The error a failing trade decode reports.
pub open spec fn trade_error(arr: Seq<JsonValue>) -> DecodeError {
    if !record_ok(trade_rules(), arr) {
        record_error(trade_rules(), arr)
    } else {
        DecodeError { field: 6, column: None, reason: DecodeReason::UnknownVariant }
    }
}

impl TradeResponse {
    /// How a decoded trade relates to the wire array it came from.
    pub open spec fn wire_matches(self, arr: Seq<JsonValue>) -> bool {
        &&& self.trade_id == arr[0]->Num_0.mag
        &&& self.symbol@ == arr[1]->Str_0@
        &&& self.execution_timestamp == arr[2]->Num_0.mag
        &&& self.order_id == arr[3]->Num_0.mag
        &&& self.execution_amount == arr[4]->Num_0
        &&& self.execution_price == arr[5]->Num_0
        &&& self.order_type == (if arr[6] is Null {
            None
        } else {
            order_kind_of(arr[6]->Str_0@)
        })
        &&& self.order_price == (if arr[7] is Null {
            None
        } else {
            Some(arr[7]->Num_0)
        })
        &&& self.is_maker == (!arr[8]->Num_0.neg && arr[8]->Num_0.mag > 0)
        &&& self.fee == arr[9]->Num_0
        &&& self.fee_currency@ == arr[10]->Str_0@
    }

    /// Decode one trade record from its flat positional array.
    pub fn decode(arr: &Vec<JsonValue>) -> (r: Result<TradeResponse, DecodeError>)
        ensures
            match r {
                Ok(o) => trade_decodes(arr@) && o.wire_matches(arr@),
                Err(e) => !trade_decodes(arr@) && e == trade_error(arr@),
            },
    {
        let rules = build_trade_rules();
        let fields = match decode_record(&rules, arr) {
            Ok(fields) => fields,
            Err(e) => {
                return Err(e);
            },
        };
        let order_type = match fields[6].as_opt_string() {
            None => None,
            Some(s) => {
                match OrderKind::from_wire(s.as_str()) {
                    Some(k) => Some(k),
                    None => {
                        return Err(
                            DecodeError {
                                field: 6,
                                column: None,
                                reason: DecodeReason::UnknownVariant,
                            },
                        );
                    },
                }
            },
        };
        Ok(
            TradeResponse {
                trade_id: fields[0].as_u64(),
                symbol: fields[1].as_string(),
                execution_timestamp: fields[2].as_u64(),
                order_id: fields[3].as_u64(),
                execution_amount: fields[4].as_num(),
                execution_price: fields[5].as_num(),
                order_type,
                order_price: fields[7].as_opt_num(),
                is_maker: fields[8].as_bool(),
                fee: fields[9].as_num(),
                fee_currency: fields[10].as_string(),
            },
        )
    }

    pub fn trade_id(&self) -> (r: u64)
        ensures
            r == self.trade_id,
    {
        self.trade_id
    }

    pub fn symbol(&self) -> (r: &str)
        ensures
            r@ == self.symbol@,
    {
        self.symbol.as_str()
    }

    pub fn execution_timestamp(&self) -> (r: u64)
        ensures
            r == self.execution_timestamp,
    {
        self.execution_timestamp
    }

    pub fn order_id(&self) -> (r: u64)
        ensures
            r == self.order_id,
    {
        self.order_id
    }

    pub fn execution_amount(&self) -> (r: Number)
        ensures
            r == self.execution_amount,
    {
        self.execution_amount
    }

    pub fn execution_price(&self) -> (r: Number)
        ensures
            r == self.execution_price,
    {
        self.execution_price
    }

    pub fn order_type(&self) -> (r: Option<OrderKind>)
        ensures
            r == self.order_type,
    {
        self.order_type
    }

    pub fn order_price(&self) -> (r: Option<Number>)
        ensures
            r == self.order_price,
    {
        self.order_price
    }

    pub fn is_maker(&self) -> (r: bool)
        ensures
            r == self.is_maker,
    {
        self.is_maker
    }

    pub fn fee(&self) -> (r: Number)
        ensures
            r == self.fee,
    {
        self.fee
    }

    pub fn fee_currency(&self) -> (r: &str)
        ensures
            r@ == self.fee_currency@,
    {
        self.fee_currency.as_str()
    }
}

/// The account's fee schedule: a two-row table nested at slot 4 of the
/// response — row 0 the maker fees, row 1 the taker fees, six columns each.
#[derive(Clone, Copy, Debug)]
pub struct AccountFees {
    /// the maker fee rate (maker row, column 0)
    pub maker_fee: Number,
    /// the maker rebate for derivative trades (maker row, column 5)
    pub derivative_rebate: Number,
    /// the taker fee rate for crypto-to-crypto trades (taker row, column 0)
    pub taker_to_crypto: Number,
    /// the taker fee rate for crypto-to-stable trades (taker row, column 1)
    pub taker_to_stable: Number,
    /// the taker fee rate for crypto-to-fiat trades (taker row, column 2)
    pub taker_to_fiat: Number,
    /// the taker fee rate for derivative trades (taker row, column 5)
    pub derivative_taker: Number,
}

/// The rule table of the two-row fee table: each row is a nested six-column
/// row of which the fee columns are read and the rest discarded.
pub open spec fn fee_row_rules() -> Seq<SimpleRule> {
    seq![
        SimpleRule::Required(Kind::Num),  // 0
        SimpleRule::Required(Kind::Num),  // 1
        SimpleRule::Required(Kind::Num),  // 2
        SimpleRule::Skip,  // 3
        SimpleRule::Skip,  // 4
        SimpleRule::Required(Kind::Num),  // 5
    ]
}

fn build_fee_row_rules() -> (r: Vec<SimpleRule>)
    ensures
        r@ == fee_row_rules(),
{
    let mut r: Vec<SimpleRule> = Vec::new();
    r.push(SimpleRule::Required(Kind::Num));
    r.push(SimpleRule::Required(Kind::Num));
    r.push(SimpleRule::Required(Kind::Num));
    r.push(SimpleRule::Skip);
    r.push(SimpleRule::Skip);
    r.push(SimpleRule::Required(Kind::Num));
    proof {
        assert(r@ =~= fee_row_rules());
    }
    r
}

/// Whether the response array decodes as a fee schedule: a two-row table at
/// slot 4 whose rows both satisfy the six-column row table.
pub open spec fn account_fees_decodes(arr: Seq<JsonValue>) -> bool {
    &&& arr.len() > 4
    &&& arr[4] is Arr
    &&& {
        let table = arr[4]->Arr_0@;
        &&& table.len() >= 2
        &&& table[0] is Arr
        &&& flat_ok(fee_row_rules(), table[0]->Arr_0@)
        &&& table[1] is Arr
        &&& flat_ok(fee_row_rules(), table[1]->Arr_0@)
    }
}

/// The error a failing fee-schedule decode reports: `field` 4 for a missing
/// or malformed table slot; otherwise `field` names the row and `column` the
/// first unsatisfiable column within it.
pub open spec fn account_fees_error(arr: Seq<JsonValue>) -> DecodeError {
    if arr.len() <= 4 {
        DecodeError { field: 4, column: None, reason: DecodeReason::Missing }
    } else if !(arr[4] is Arr) {
        DecodeError { field: 4, column: None, reason: DecodeReason::WrongType }
    } else {
        let table = arr[4]->Arr_0@;
        if table.len() <= 0 {
            DecodeError { field: 0, column: None, reason: DecodeReason::Missing }
        } else if !(table[0] is Arr) {
            DecodeError { field: 0, column: None, reason: DecodeReason::WrongType }
        } else if !flat_ok(fee_row_rules(), table[0]->Arr_0@) {
            row_error(0, table[0]->Arr_0@)
        } else if table.len() <= 1 {
            DecodeError { field: 1, column: None, reason: DecodeReason::Missing }
        } else if !(table[1] is Arr) {
            DecodeError { field: 1, column: None, reason: DecodeReason::WrongType }
        } else {
            row_error(1, table[1]->Arr_0@)
        }
    }
}

/// The error one failing fee row reports, with the row index as the field.
pub open spec fn row_error(row: usize, cols: Seq<JsonValue>) -> DecodeError {
    let e = flat_error(fee_row_rules(), cols);
    DecodeError { field: row, column: Some(e.field), reason: e.reason }
}

impl AccountFees {
    /// How a decoded fee schedule relates to the two-row table at slot 4 of
    /// the wire array it came from.
    pub open spec fn wire_matches(self, arr: Seq<JsonValue>) -> bool {
        let maker = arr[4]->Arr_0@[0]->Arr_0@;
        let taker = arr[4]->Arr_0@[1]->Arr_0@;
        &&& self.maker_fee == maker[0]->Num_0
        &&& self.derivative_rebate == maker[5]->Num_0
        &&& self.taker_to_crypto == taker[0]->Num_0
        &&& self.taker_to_stable == taker[1]->Num_0
        &&& self.taker_to_fiat == taker[2]->Num_0
        &&& self.derivative_taker == taker[5]->Num_0
    }

    /// Decode the account fee schedule from its response array.
    pub fn decode(arr: &Vec<JsonValue>) -> (r: Result<AccountFees, DecodeError>)
        ensures
            match r {
                Ok(o) => account_fees_decodes(arr@) && o.wire_matches(arr@),
                Err(e) => !account_fees_decodes(arr@) && e == account_fees_error(arr@),
            },
    {
        if arr.len() <= 4 {
            return Err(DecodeError { field: 4, column: None, reason: DecodeReason::Missing });
        }
        let table = match &arr[4] {
            JsonValue::Arr(t) => t,
            _ => {
                return Err(
                    DecodeError { field: 4, column: None, reason: DecodeReason::WrongType },
                );
            },
        };
        if table.len() == 0 {
            return Err(DecodeError { field: 0, column: None, reason: DecodeReason::Missing });
        }
        let maker = match &table[0] {
            JsonValue::Arr(m) => m,
            _ => {
                return Err(
                    DecodeError { field: 0, column: None, reason: DecodeReason::WrongType },
                );
            },
        };
        let rules = build_fee_row_rules();
        let maker_fields = match decode_flat(&rules, maker) {
            Ok(fields) => fields,
            Err(e) => {
                return Err(DecodeError { field: 0, column: Some(e.field), reason: e.reason });
            },
        };
        if table.len() <= 1 {
            return Err(DecodeError { field: 1, column: None, reason: DecodeReason::Missing });
        }
        let taker = match &table[1] {
            JsonValue::Arr(t) => t,
            _ => {
                return Err(
                    DecodeError { field: 1, column: None, reason: DecodeReason::WrongType },
                );
            },
        };
        let taker_fields = match decode_flat(&rules, taker) {
            Ok(fields) => fields,
            Err(e) => {
                return Err(DecodeError { field: 1, column: Some(e.field), reason: e.reason });
            },
        };
        Ok(
            AccountFees {
                maker_fee: maker_fields[0].as_num(),
                derivative_rebate: maker_fields[5].as_num(),
                taker_to_crypto: taker_fields[0].as_num(),
                taker_to_stable: taker_fields[1].as_num(),
                taker_to_fiat: taker_fields[2].as_num(),
                derivative_taker: taker_fields[5].as_num(),
            },
        )
    }

    pub fn maker_fee(&self) -> (r: Number)
        ensures
            r == self.maker_fee,
    {
        self.maker_fee
    }

    pub fn derivative_rebate(&self) -> (r: Number)
        ensures
            r == self.derivative_rebate,
    {
        self.derivative_rebate
    }

    pub fn taker_to_crypto(&self) -> (r: Number)
        ensures
            r == self.taker_to_crypto,
    {
        self.taker_to_crypto
    }

    pub fn taker_to_stable(&self) -> (r: Number)
        ensures
            r == self.taker_to_stable,
    {
        self.taker_to_stable
    }

    pub fn taker_to_fiat(&self) -> (r: Number)
        ensures
            r == self.taker_to_fiat,
    {
        self.taker_to_fiat
    }

    pub fn derivative_taker(&self) -> (r: Number)
        ensures
            r == self.derivative_taker,
    {
        self.derivative_taker
    }
}

} // verus!
