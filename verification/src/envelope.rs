//! The outer notification envelope.
//!
//! Authenticated write calls answer with an eight-slot outer array:
//! `[mts, kind-tag, message-id, _, payload, _, status, text]`. The payload
//! slot holds either the inner record's flat field sequence directly, or a
//! one-element list wrapping that sequence; the wire emits both shapes, so
//! the depth is resolved per call by looking at the payload's first element,
//! never assumed from the record type.

use crate::errors::{DecodeError, DecodeReason};
use crate::json::JsonValue;
use vstd::prelude::*;

verus! {

/// The fixed outer slots of a decoded envelope, and the inner flat field
/// sequence of its payload.
pub struct Envelope<'a> {
    /// millisecond timestamp of the update (slot 0, rounded to a whole
    /// number as the wire's consumers read it)
    pub mts: u64,
    /// the tag naming what kind of notification this is (slot 1)
    pub kind: &'a String,
    /// unique id of the message, when the wire carries one (slot 2)
    pub message_id: Option<u64>,
    /// the inner record's flat field sequence (from slot 4, unwrapped)
    pub inner: &'a Vec<JsonValue>,
    /// status of the notification (slot 6)
    pub status: &'a String,
    /// text of the notification (slot 7)
    pub text: &'a String,
}

/// Whether slot `k` of the outer array has the shape the envelope fixes.
pub open spec fn envelope_slot_ok(arr: Seq<JsonValue>, k: int) -> bool {
    k < arr.len() && if k == 0 {
        arr[0] is Num
    } else if k == 1 {
        arr[1] is Str
    } else if k == 2 {
        arr[2] is Null || (arr[2] matches JsonValue::Num(n) && n.is_uint())
    } else if k == 4 {
        arr[4] matches JsonValue::Arr(p) && p@.len() >= 1
    } else if k == 6 {
        arr[6] is Str
    } else if k == 7 {
        arr[7] is Str
    } else {
        true
    }
}

/// Whether the outer array is a well-shaped envelope.
pub open spec fn envelope_ok(arr: Seq<JsonValue>) -> bool {
    &&& envelope_slot_ok(arr, 0)
    &&& envelope_slot_ok(arr, 1)
    &&& envelope_slot_ok(arr, 2)
    &&& envelope_slot_ok(arr, 4)
    &&& envelope_slot_ok(arr, 6)
    &&& envelope_slot_ok(arr, 7)
}

/// The error a malformed envelope reports: the first fixed slot that is
/// missing or of the wrong shape; an empty payload reports its missing
/// first element.
pub open spec fn envelope_error(arr: Seq<JsonValue>) -> DecodeError {
    if !envelope_slot_ok(arr, 0) {
        env_err_at(arr, 0)
    } else if !envelope_slot_ok(arr, 1) {
        env_err_at(arr, 1)
    } else if !envelope_slot_ok(arr, 2) {
        env_err_at(arr, 2)
    } else if !envelope_slot_ok(arr, 4) {
        if 4 < arr.len() && arr[4] is Arr {
            DecodeError { field: 4, column: Some(0), reason: DecodeReason::Missing }
        } else {
            env_err_at(arr, 4)
        }
    } else if !envelope_slot_ok(arr, 6) {
        env_err_at(arr, 6)
    } else {
        env_err_at(arr, 7)
    }
}

pub open spec fn env_err_at(arr: Seq<JsonValue>, k: int) -> DecodeError {
    DecodeError {
        field: k as usize,
        column: None,
        reason: if k >= arr.len() {
            DecodeReason::Missing
        } else {
            DecodeReason::WrongType
        },
    }
}

/// The inner flat field sequence of a well-shaped envelope: the payload
/// itself, unless its first element is itself an array — then the payload is
/// double-nested and that first element already is the flat sequence.
pub open spec fn envelope_inner(arr: Seq<JsonValue>) -> Seq<JsonValue> {
    let p = arr[4]->Arr_0@;
    if p[0] is Arr {
        p[0]->Arr_0@
    } else {
        p
    }
}

/// The message id of a well-shaped envelope: absent when slot 2 is null.
pub open spec fn envelope_message_id(arr: Seq<JsonValue>) -> Option<u64> {
    if arr[2] is Null {
        None
    } else {
        Some(arr[2]->Num_0.mag)
    }
}

/// Resolve the outer envelope: read the fixed outer slots and unwrap the
/// payload to the inner flat field sequence, resolving the single- versus
/// double-nesting ambiguity by inspection.
pub fn decode_envelope<'a>(arr: &'a Vec<JsonValue>) -> (r: Result<Envelope<'a>, DecodeError>)
    ensures
        match r {
            Ok(env) => {
                &&& envelope_ok(arr@)
                &&& env.mts as nat == arr@[0]->Num_0.spec_round_u64()
                &&& env.kind@ == arr@[1]->Str_0@
                &&& env.message_id == envelope_message_id(arr@)
                &&& env.inner@ == envelope_inner(arr@)
                &&& env.status@ == arr@[6]->Str_0@
                &&& env.text@ == arr@[7]->Str_0@
            },
            Err(e) => !envelope_ok(arr@) && e == envelope_error(arr@),
        },
{
    if arr.len() == 0 {
        return Err(DecodeError::at(0, DecodeReason::Missing));
    }
    let mts: u64 = match &arr[0] {
        JsonValue::Num(n) => n.round_u64(),
        _ => {
            return Err(DecodeError::at(0, DecodeReason::WrongType));
        },
    };
    if arr.len() <= 1 {
        return Err(DecodeError::at(1, DecodeReason::Missing));
    }
    let kind: &String = match &arr[1] {
        JsonValue::Str(s) => s,
        _ => {
            return Err(DecodeError::at(1, DecodeReason::WrongType));
        },
    };
    if arr.len() <= 2 {
        return Err(DecodeError::at(2, DecodeReason::Missing));
    }
    let message_id: Option<u64> = match &arr[2] {
        JsonValue::Null => None,
        JsonValue::Num(n) => {
            match n.as_u64() {
                Some(u) => Some(u),
                None => {
                    return Err(DecodeError::at(2, DecodeReason::WrongType));
                },
            }
        },
        _ => {
            return Err(DecodeError::at(2, DecodeReason::WrongType));
        },
    };
    if arr.len() <= 4 {
        return Err(DecodeError::at(4, DecodeReason::Missing));
    }
    let payload: &Vec<JsonValue> = match &arr[4] {
        JsonValue::Arr(p) => p,
        _ => {
            return Err(DecodeError::at(4, DecodeReason::WrongType));
        },
    };
    if payload.len() == 0 {
        return Err(DecodeError { field: 4, column: Some(0), reason: DecodeReason::Missing });
    }
    let inner: &Vec<JsonValue> = match &payload[0] {
        JsonValue::Arr(flat) => flat,
        _ => payload,
    };
    if arr.len() <= 6 {
        return Err(DecodeError::at(6, DecodeReason::Missing));
    }
    let status: &String = match &arr[6] {
        JsonValue::Str(s) => s,
        _ => {
            return Err(DecodeError::at(6, DecodeReason::WrongType));
        },
    };
    if arr.len() <= 7 {
        return Err(DecodeError::at(7, DecodeReason::Missing));
    }
    let text: &String = match &arr[7] {
        JsonValue::Str(s) => s,
        _ => {
            return Err(DecodeError::at(7, DecodeReason::WrongType));
        },
    };
    Ok(Envelope { mts, kind, message_id, inner, status, text })
}

/// The nesting ambiguity is harmless: an envelope whose payload slot holds
/// the flat field sequence directly, and one that agrees with it everywhere
/// except that its payload slot wraps the same sequence in a one-element
/// list, are equally well-shaped and decode to the same inner sequence. The
/// other decoded fields depend only on the slots the two envelopes share.
pub proof fn lemma_nesting_ambiguity(direct: Seq<JsonValue>, wrapped: Seq<JsonValue>)
    requires
        direct.len() == wrapped.len(),
        forall|i: int| 0 <= i < direct.len() && i != 4 ==> direct[i] == wrapped[i],
        4 < direct.len(),
        direct[4] matches JsonValue::Arr(p) && p@.len() >= 1 && !(p@[0] is Arr),
        wrapped[4] matches JsonValue::Arr(q) && q@.len() == 1 && (q@[0] matches JsonValue::Arr(w)
            && w@ == direct[4]->Arr_0@),
    ensures
        envelope_ok(direct) <==> envelope_ok(wrapped),
        envelope_ok(direct) ==> envelope_inner(direct) == envelope_inner(wrapped),
        envelope_ok(direct) ==> envelope_message_id(direct) == envelope_message_id(wrapped),
{
}

} // verus!
