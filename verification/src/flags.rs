//! Order bit-flags and their wire codec.
//!
//! Flags arrive in either of two wire representations — a JSON number, or a
//! JSON string holding a decimal integer — and always leave as the number.
//! A value with bits outside the known flag set never decodes: drift from
//! the exchange's flag table is a hard failure, not masked.

use crate::errors::DecodeReason;
use crate::json::JsonValue;
use crate::num::{
    canon_mag, canon_scale, dec_chars, decimal_mant, decimal_neg, decimal_scale, decimal_valid,
    lemma_dec_chars_digits, parse_decimal, Number,
};
use vstd::prelude::*;

verus! {

/// Wire values of the known order flags.
pub const FLAG_HIDDEN: u32 = 64;

pub const FLAG_CLOSE: u32 = 512;

pub const FLAG_REDUCE_ONLY: u32 = 1024;

pub const FLAG_POST_ONLY: u32 = 4096;

pub const FLAG_OCO: u32 = 16384;

pub const FLAG_NO_VAR_RATES: u32 = 524288;

/// Every bit the exchange has assigned a meaning.
pub const KNOWN_FLAGS: u32 = 64 | 512 | 1024 | 4096 | 16384 | 524288;

/// A set of order flags. Only known wire bits are ever set (`wf`), so a
/// value of this type always encodes and decodes.
#[derive(Clone, Copy, Debug, PartialEq, Eq, Structural)]
pub struct OrderFlags {
    pub bits: u32,
}

impl OrderFlags {
    /// Only known wire bits are set.
    pub open spec fn wf(self) -> bool {
        self.bits & !KNOWN_FLAGS == 0
    }

    /// The empty flag set.
    pub fn empty() -> (r: OrderFlags)
        ensures
            r.bits == 0,
            r.wf(),
    {
        proof {
            assert(0u32 & !KNOWN_FLAGS == 0) by (bit_vector);
        }
        OrderFlags { bits: 0 }
    }

    /// The flag set with exactly the given bits, refused when any bit is
    /// outside the known flag set.
    pub fn from_bits(bits: u32) -> (r: Option<OrderFlags>)
        ensures
            r == if bits & !KNOWN_FLAGS == 0 {
                Some(OrderFlags { bits })
            } else {
                None::<OrderFlags>
            },
    {
        if bits & !KNOWN_FLAGS == 0 {
            Some(OrderFlags { bits })
        } else {
            None
        }
    }

    pub fn bits(&self) -> (r: u32)
        ensures
            r == self.bits,
    {
        self.bits
    }

    /// Whether every flag of `other` is set in `self`.
    pub fn contains(&self, other: OrderFlags) -> (r: bool)
        ensures
            r == (self.bits & other.bits == other.bits),
    {
        self.bits & other.bits == other.bits
    }

    /// The flags of both sets together.
    pub fn union(self, other: OrderFlags) -> (r: OrderFlags)
        requires
            self.wf(),
            other.wf(),
        ensures
            r.bits == self.bits | other.bits,
            r.wf(),
    {
        proof {
            let a = self.bits;
            let b = other.bits;
            assert((a | b) & !KNOWN_FLAGS == 0) by (bit_vector)
                requires
                    a & !KNOWN_FLAGS == 0,
                    b & !KNOWN_FLAGS == 0,
            ;
        }
        OrderFlags { bits: self.bits | other.bits }
    }

    /// One named flag.
    pub fn hidden() -> (r: OrderFlags)
        ensures
            r.bits == FLAG_HIDDEN,
            r.wf(),
    {
        proof {
            assert(64u32 & !KNOWN_FLAGS == 0) by (bit_vector);
        }
        OrderFlags { bits: FLAG_HIDDEN }
    }

    /// One named flag.
    pub fn close() -> (r: OrderFlags)
        ensures
            r.bits == FLAG_CLOSE,
            r.wf(),
    {
        proof {
            assert(512u32 & !KNOWN_FLAGS == 0) by (bit_vector);
        }
        OrderFlags { bits: FLAG_CLOSE }
    }

    /// One named flag.
    pub fn reduce_only() -> (r: OrderFlags)
        ensures
            r.bits == FLAG_REDUCE_ONLY,
            r.wf(),
    {
        proof {
            assert(1024u32 & !KNOWN_FLAGS == 0) by (bit_vector);
        }
        OrderFlags { bits: FLAG_REDUCE_ONLY }
    }

    /// One named flag.
    pub fn post_only() -> (r: OrderFlags)
        ensures
            r.bits == FLAG_POST_ONLY,
            r.wf(),
    {
        proof {
            assert(4096u32 & !KNOWN_FLAGS == 0) by (bit_vector);
        }
        OrderFlags { bits: FLAG_POST_ONLY }
    }

    /// One named flag.
    pub fn oco() -> (r: OrderFlags)
        ensures
            r.bits == FLAG_OCO,
            r.wf(),
    {
        proof {
            assert(16384u32 & !KNOWN_FLAGS == 0) by (bit_vector);
        }
        OrderFlags { bits: FLAG_OCO }
    }

    /// One named flag.
    pub fn no_var_rates() -> (r: OrderFlags)
        ensures
            r.bits == FLAG_NO_VAR_RATES,
            r.wf(),
    {
        proof {
            assert(524288u32 & !KNOWN_FLAGS == 0) by (bit_vector);
        }
        OrderFlags { bits: FLAG_NO_VAR_RATES }
    }

    /// The numeric wire representation; encoding always emits the number.
    pub fn encode(&self) -> (r: u32)
        ensures
            r == self.bits,
    {
        self.bits
    }
}

/// What a whole-number wire value decodes to: the matching flag set, or
/// `InvalidFlags` when any bit is unassigned or the value exceeds the flag
/// word.
pub open spec fn flags_of_uint(u: nat) -> Result<OrderFlags, DecodeReason> {
    if u <= u32::MAX && (u as u32) & !KNOWN_FLAGS == 0 {
        Ok(OrderFlags { bits: u as u32 })
    } else {
        Err(DecodeReason::InvalidFlags)
    }
}

/// What a numeric flags slot decodes to: whole unsigned numbers go through
/// `flags_of_uint`; fractional or negative numbers are the wrong shape.
pub open spec fn num_flags_result(n: Number) -> Result<OrderFlags, DecodeReason> {
    if n.is_uint() {
        flags_of_uint(n.mag as nat)
    } else {
        Err(DecodeReason::WrongType)
    }
}

/// What a string flags slot decodes to: a decimal numeral is parsed, then
/// interpreted exactly as the numeric form would be.
pub open spec fn str_flags_result(s: Seq<char>) -> Result<OrderFlags, DecodeReason> {
    if decimal_valid(s) && decimal_mant(s) <= u64::MAX && decimal_scale(s) <= u32::MAX {
        if canon_scale(decimal_mant(s), decimal_scale(s)) == 0 && !(decimal_neg(s)
            && decimal_mant(s) != 0) {
            flags_of_uint(canon_mag(decimal_mant(s), decimal_scale(s)))
        } else {
            Err(DecodeReason::WrongType)
        }
    } else {
        Err(DecodeReason::NotNumeric)
    }
}

/// What any flags slot decodes to, over both wire representations.
pub open spec fn spec_flags_value(v: JsonValue) -> Result<OrderFlags, DecodeReason> {
    match v {
        JsonValue::Num(n) => num_flags_result(n),
        JsonValue::Str(s) => str_flags_result(s@),
        _ => Err(DecodeReason::WrongType),
    }
}

/// Decode one flags slot from either wire representation.
pub fn decode_flags_value(v: &JsonValue) -> (r: Result<OrderFlags, DecodeReason>)
    ensures
        r == spec_flags_value(*v),
{
    match v {
        JsonValue::Num(n) => {
            match n.as_u64() {
                Some(u) => {
                    if u <= u32::MAX as u64 {
                        match OrderFlags::from_bits(u as u32) {
                            Some(f) => Ok(f),
                            None => Err(DecodeReason::InvalidFlags),
                        }
                    } else {
                        Err(DecodeReason::InvalidFlags)
                    }
                },
                None => Err(DecodeReason::WrongType),
            }
        },
        JsonValue::Str(s) => {
            match parse_decimal(s.as_str()) {
                Some(n) => {
                    match n.as_u64() {
                        Some(u) => {
                            if u <= u32::MAX as u64 {
                                match OrderFlags::from_bits(u as u32) {
                                    Some(f) => Ok(f),
                                    None => Err(DecodeReason::InvalidFlags),
                                }
                            } else {
                                Err(DecodeReason::InvalidFlags)
                            }
                        },
                        None => Err(DecodeReason::WrongType),
                    }
                },
                None => Err(DecodeReason::NotNumeric),
            }
        },
        _ => Err(DecodeReason::WrongType),
    }
}

/// Round trip: decoding the numeric encoding of any flag set yields that
/// same flag set back.
pub proof fn lemma_flags_round_trip(f: OrderFlags)
    requires
        f.wf(),
    ensures
        spec_flags_value(JsonValue::Num(Number { neg: false, mag: f.bits as u64, scale: 0 }))
            == Ok::<OrderFlags, DecodeReason>(f),
{
}

/// Decoding the decimal string form of a whole number yields the same result
/// as decoding its numeric form, for every value — the two wire
/// representations agree everywhere.
pub proof fn lemma_flags_string_form_agrees(u: u64)
    ensures
        str_flags_result(dec_chars(u as nat)) == num_flags_result(
            Number { neg: false, mag: u, scale: 0 },
        ),
{
    let s = dec_chars(u as nat);
    lemma_dec_chars_digits(u as nat);
    assert(s[0] != '-');
    assert(crate::num::decimal_body(s) == s);
    assert(crate::num::unsigned_digits(s) == s);
    assert(decimal_mant(s) == u as nat);
    assert(decimal_scale(s) == 0);
    assert(canon_scale(u as nat, 0) == 0);
    assert(canon_mag(u as nat, 0) == u as nat);
}

} // verus!
