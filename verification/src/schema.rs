//! The positional decode engine.
//!
//! One record type on the wire is a flat JSON array read by fixed index.
//! A record's layout is written down once, as an ordered table of rules
//! (`Rule`), and one generic walker applies the table to an array: each rule
//! consumes exactly one element, in order. Running out of elements before the
//! table is exhausted is always an error naming the first unsatisfiable
//! slot; trailing unconsumed elements are tolerated and ignored.

use crate::errors::{DecodeError, DecodeReason};
use crate::flags::{decode_flags_value, spec_flags_value, OrderFlags};
use crate::json::JsonValue;
use crate::num::{
    canon_mag, canon_scale, decimal_mant, decimal_neg, decimal_scale, decimal_valid, parse_decimal,
    Number,
};
use vstd::prelude::*;

verus! {

/// The target shape of one decoded slot.
#[derive(Clone, Copy, Debug, PartialEq, Eq, Structural)]
pub enum Kind {
    /// a whole unsigned JSON number
    Uint,
    /// a JSON number rounded to a whole number (half away from zero,
    /// negatives clamped to zero), as the wire's timestamps are read
    UintRounded,
    /// any JSON number, kept exact
    Num,
    /// a JSON string
    Str,
    /// a whole unsigned JSON number read as a boolean: positive means true
    BoolFromUint,
    /// a whole signed JSON number read as a boolean: positive means true
    BoolFromInt,
}

/// One decoded slot.
#[derive(Debug)]
pub enum FieldValue {
    /// an optional slot that decoded as absent
    Absent,
    /// a reserved slot, consumed and discarded
    Skipped,
    U64(u64),
    Num(Number),
    Str(String),
    Bool(bool),
    Flags(OrderFlags),
    /// the columns of a nested row
    Row(Vec<FieldValue>),
}

/// One slot of a flat row.
#[derive(Debug)]
pub enum SimpleRule {
    /// the slot must convert to the kind
    Required(Kind),
    /// `null` decodes to absent; anything else must convert to the kind
    Optional(Kind),
    /// the slot must be a number; the sentinel value decodes to absent,
    /// anything else to the number itself (the wire writes a sentinel such
    /// as `0` where other formats would write `null`)
    OptionalSentinel(Number),
    /// a reserved placeholder slot: consume and discard, never an error
    Skip,
    /// bit flags, in either of their two wire representations
    Flags,
    /// a number, or a string holding a decimal numeral
    CoercibleNumeric,
}

/// One slot of a record.
#[derive(Debug)]
pub enum Rule {
    /// one value slot
    Slot(SimpleRule),
    /// the slot holds a nested row, decoded by its own flat table
    Nested(Vec<SimpleRule>),
}

/// Whether a JSON value converts to the kind.
pub open spec fn kind_ok(k: Kind, v: JsonValue) -> bool {
    match k {
        Kind::Uint => v matches JsonValue::Num(n) && n.is_uint(),
        Kind::UintRounded => v is Num,
        Kind::Num => v is Num,
        Kind::Str => v is Str,
        Kind::BoolFromUint => v matches JsonValue::Num(n) && n.is_uint(),
        Kind::BoolFromInt => v matches JsonValue::Num(n) && n.spec_is_i64(),
    }
}

/// Whether `f` is what converting `v` to the kind yields.
pub open spec fn kind_matches(k: Kind, v: JsonValue, f: FieldValue) -> bool {
    match k {
        Kind::Uint => v matches JsonValue::Num(n) && n.is_uint() && f == FieldValue::U64(n.mag),
        Kind::UintRounded => v matches JsonValue::Num(n) && f == FieldValue::U64(
            n.spec_round_u64() as u64,
        ),
        Kind::Num => v matches JsonValue::Num(n) && f == FieldValue::Num(n),
        Kind::Str => v matches JsonValue::Str(s) && f matches FieldValue::Str(t) && t@ == s@,
        Kind::BoolFromUint => v matches JsonValue::Num(n) && n.is_uint() && f == FieldValue::Bool(
            n.mag > 0,
        ),
        Kind::BoolFromInt => v matches JsonValue::Num(n) && n.spec_is_i64() && f
            == FieldValue::Bool(!n.neg && n.mag > 0),
    }
}

/// Whether a coercible-numeric slot converts.
pub open spec fn coercible_ok(v: JsonValue) -> bool {
    match v {
        JsonValue::Num(n) => true,
        JsonValue::Str(s) => decimal_valid(s@) && decimal_mant(s@) <= u64::MAX as nat
            && decimal_scale(s@) <= u32::MAX as nat,
        _ => false,
    }
}

/// Whether `f` is what a coercible-numeric slot yields from `v`.
pub open spec fn coercible_matches(v: JsonValue, f: FieldValue) -> bool {
    match v {
        JsonValue::Num(n) => f == FieldValue::Num(n),
        JsonValue::Str(s) => f matches FieldValue::Num(m) && m.wf() && m.mag as nat == canon_mag(
            decimal_mant(s@),
            decimal_scale(s@),
        ) && m.scale as nat == canon_scale(decimal_mant(s@), decimal_scale(s@)) && m.neg == (
        decimal_neg(s@) && decimal_mant(s@) != 0),
        _ => false,
    }
}

/// Whether one flat rule accepts the value.
pub open spec fn simple_ok(r: SimpleRule, v: JsonValue) -> bool {
    match r {
        SimpleRule::Required(k) => kind_ok(k, v),
        SimpleRule::Optional(k) => v is Null || kind_ok(k, v),
        SimpleRule::OptionalSentinel(sent) => v is Num,
        SimpleRule::Skip => true,
        SimpleRule::Flags => spec_flags_value(v) is Ok,
        SimpleRule::CoercibleNumeric => coercible_ok(v),
    }
}

/// Whether `f` is what one flat rule yields from `v`.
pub open spec fn simple_matches(r: SimpleRule, v: JsonValue, f: FieldValue) -> bool {
    match r {
        SimpleRule::Required(k) => kind_matches(k, v, f),
        SimpleRule::Optional(k) => if v is Null {
            f == FieldValue::Absent
        } else {
            kind_matches(k, v, f)
        },
        SimpleRule::OptionalSentinel(sent) => v matches JsonValue::Num(n) && f == if n == sent {
            FieldValue::Absent
        } else {
            FieldValue::Num(n)
        },
        SimpleRule::Skip => f == FieldValue::Skipped,
        SimpleRule::Flags => f matches FieldValue::Flags(g) && spec_flags_value(v) == Ok::<
            OrderFlags,
            DecodeReason,
        >(g),
        SimpleRule::CoercibleNumeric => coercible_matches(v, f),
    }
}

/// Why one flat rule refuses the value (meaningful when `!simple_ok`).
pub open spec fn simple_reason(r: SimpleRule, v: JsonValue) -> DecodeReason {
    match r {
        SimpleRule::Flags => if spec_flags_value(v) is Err {
            spec_flags_value(v)->Err_0
        } else {
            DecodeReason::WrongType
        },
        SimpleRule::CoercibleNumeric => if v is Str {
            DecodeReason::NotNumeric
        } else {
            DecodeReason::WrongType
        },
        _ => DecodeReason::WrongType,
    }
}

/// Whether a whole flat table decodes against an array: enough elements, and
/// every rule accepts its slot.
pub open spec fn flat_ok(schema: Seq<SimpleRule>, arr: Seq<JsonValue>) -> bool {
    &&& schema.len() <= arr.len()
    &&& forall|i: int| 0 <= i < schema.len() ==> simple_ok(#[trigger] schema[i], arr[i])
}

/// The first index at or after `i` where the flat decode fails (the table
/// length if it does not).
pub open spec fn flat_fail_from(schema: Seq<SimpleRule>, arr: Seq<JsonValue>, i: int) -> int
    decreases schema.len() - i,
{
    if i < 0 || i >= schema.len() {
        schema.len() as int
    } else if i >= arr.len() || !simple_ok(schema[i], arr[i]) {
        i
    } else {
        flat_fail_from(schema, arr, i + 1)
    }
}

/// The error a failing flat decode reports.
pub open spec fn flat_error(schema: Seq<SimpleRule>, arr: Seq<JsonValue>) -> DecodeError {
    let j = flat_fail_from(schema, arr, 0);
    DecodeError {
        field: j as usize,
        column: None,
        reason: if j >= arr.len() {
            DecodeReason::Missing
        } else {
            simple_reason(schema[j], arr[j])
        },
    }
}

/// Whether one record rule accepts the value.
pub open spec fn rule_ok(r: Rule, v: JsonValue) -> bool {
    match r {
        Rule::Slot(sr) => simple_ok(sr, v),
        Rule::Nested(child) => v matches JsonValue::Arr(a) && flat_ok(child@, a@),
    }
}

/// Whether `f` is what one record rule yields from `v`.
pub open spec fn rule_matches(r: Rule, v: JsonValue, f: FieldValue) -> bool {
    match r {
        Rule::Slot(sr) => simple_matches(sr, v, f),
        Rule::Nested(child) => v matches JsonValue::Arr(a) && f matches FieldValue::Row(row)
            && row@.len() == child@.len() && (forall|i: int|
            0 <= i < child@.len() ==> simple_matches(#[trigger] child@[i], a@[i], row@[i])),
    }
}

/// The error a failing record rule reports for slot `i`.
pub open spec fn rule_error(i: int, r: Rule, v: JsonValue) -> DecodeError {
    match r {
        Rule::Slot(sr) => DecodeError {
            field: i as usize,
            column: None,
            reason: simple_reason(sr, v),
        },
        Rule::Nested(child) => match v {
            JsonValue::Arr(a) => {
                let j = flat_fail_from(child@, a@, 0);
                DecodeError {
                    field: i as usize,
                    column: Some(j as usize),
                    reason: if j >= a@.len() {
                        DecodeReason::Missing
                    } else {
                        simple_reason(child@[j], a@[j])
                    },
                }
            },
            _ => DecodeError { field: i as usize, column: None, reason: DecodeReason::WrongType },
        },
    }
}

/// Whether a whole record table decodes against an array.
pub open spec fn record_ok(schema: Seq<Rule>, arr: Seq<JsonValue>) -> bool {
    &&& schema.len() <= arr.len()
    &&& forall|i: int| 0 <= i < schema.len() ==> rule_ok(#[trigger] schema[i], arr[i])
}

/// The first index at or after `i` where the record decode fails.
pub open spec fn record_fail_from(schema: Seq<Rule>, arr: Seq<JsonValue>, i: int) -> int
    decreases schema.len() - i,
{
    if i < 0 || i >= schema.len() {
        schema.len() as int
    } else if i >= arr.len() || !rule_ok(schema[i], arr[i]) {
        i
    } else {
        record_fail_from(schema, arr, i + 1)
    }
}

/// The error a failing record decode reports: it names the first
/// unsatisfiable slot.
pub open spec fn record_error(schema: Seq<Rule>, arr: Seq<JsonValue>) -> DecodeError {
    let j = record_fail_from(schema, arr, 0);
    if j >= arr.len() {
        DecodeError { field: j as usize, column: None, reason: DecodeReason::Missing }
    } else {
        rule_error(j, schema[j], arr[j])
    }
}

proof fn lemma_flat_fail_skip(schema: Seq<SimpleRule>, arr: Seq<JsonValue>, i: int)
    requires
        0 <= i <= schema.len(),
        i <= arr.len(),
        forall|j: int| 0 <= j < i ==> simple_ok(#[trigger] schema[j], arr[j]),
    ensures
        flat_fail_from(schema, arr, 0) == flat_fail_from(schema, arr, i),
    decreases i,
{
    if i > 0 {
        lemma_flat_fail_skip(schema, arr, i - 1);
        lemma_flat_fail_step(schema, arr, 0, i - 1);
    }
}

proof fn lemma_flat_fail_step(schema: Seq<SimpleRule>, arr: Seq<JsonValue>, lo: int, i: int)
    requires
        0 <= lo <= i < schema.len(),
        i < arr.len(),
        forall|j: int| lo <= j <= i ==> simple_ok(#[trigger] schema[j], arr[j]),
    ensures
        flat_fail_from(schema, arr, lo) == flat_fail_from(schema, arr, i + 1),
    decreases i - lo,
{
    assert(simple_ok(schema[lo], arr[lo]));
    if lo < i {
        lemma_flat_fail_step(schema, arr, lo + 1, i);
    }
}

proof fn lemma_record_fail_skip(schema: Seq<Rule>, arr: Seq<JsonValue>, i: int)
    requires
        0 <= i <= schema.len(),
        i <= arr.len(),
        forall|j: int| 0 <= j < i ==> rule_ok(#[trigger] schema[j], arr[j]),
    ensures
        record_fail_from(schema, arr, 0) == record_fail_from(schema, arr, i),
    decreases i,
{
    if i > 0 {
        lemma_record_fail_skip(schema, arr, i - 1);
        lemma_record_fail_step(schema, arr, 0, i - 1);
    }
}

proof fn lemma_record_fail_step(schema: Seq<Rule>, arr: Seq<JsonValue>, lo: int, i: int)
    requires
        0 <= lo <= i < schema.len(),
        i < arr.len(),
        forall|j: int| lo <= j <= i ==> rule_ok(#[trigger] schema[j], arr[j]),
    ensures
        record_fail_from(schema, arr, lo) == record_fail_from(schema, arr, i + 1),
    decreases i - lo,
{
    assert(rule_ok(schema[lo], arr[lo]));
    if lo < i {
        lemma_record_fail_step(schema, arr, lo + 1, i);
    }
}

/// A truncated array is never partially decoded: when the array is shorter
/// than the table but every slot it does have satisfies its rule, the decode
/// fails and the error names the first slot the array cannot satisfy — the
/// one just past its end.
pub proof fn lemma_short_array_names_first_missing_slot(schema: Seq<Rule>, arr: Seq<JsonValue>)
    requires
        arr.len() < schema.len(),
        forall|i: int| 0 <= i < arr.len() ==> rule_ok(#[trigger] schema[i], arr[i]),
    ensures
        !record_ok(schema, arr),
        record_error(schema, arr) == (DecodeError {
            field: arr.len() as usize,
            column: None,
            reason: DecodeReason::Missing,
        }),
{
    lemma_record_fail_skip(schema, arr, arr.len() as int);
}

/// Convert one value to a kind.
fn decode_kind(k: Kind, v: &JsonValue) -> (r: Result<FieldValue, DecodeReason>)
    ensures
        match r {
            Ok(f) => kind_ok(k, *v) && kind_matches(k, *v, f),
            Err(e) => !kind_ok(k, *v) && e == DecodeReason::WrongType,
        },
{
    match (k, v) {
        (Kind::Uint, JsonValue::Num(n)) => {
            match n.as_u64() {
                Some(u) => Ok(FieldValue::U64(u)),
                None => Err(DecodeReason::WrongType),
            }
        },
        (Kind::UintRounded, JsonValue::Num(n)) => Ok(FieldValue::U64(n.round_u64())),
        (Kind::Num, JsonValue::Num(n)) => Ok(FieldValue::Num(*n)),
        (Kind::Str, JsonValue::Str(s)) => Ok(FieldValue::Str(s.clone())),
        (Kind::BoolFromUint, JsonValue::Num(n)) => {
            match n.as_u64() {
                Some(u) => Ok(FieldValue::Bool(u > 0)),
                None => Err(DecodeReason::WrongType),
            }
        },
        (Kind::BoolFromInt, JsonValue::Num(n)) => {
            if n.is_i64() {
                Ok(FieldValue::Bool(!n.neg && n.mag > 0))
            } else {
                Err(DecodeReason::WrongType)
            }
        },
        _ => Err(DecodeReason::WrongType),
    }
}

/// Apply one flat rule to one value.
fn decode_simple(r: &SimpleRule, v: &JsonValue) -> (res: Result<FieldValue, DecodeReason>)
    ensures
        match res {
            Ok(f) => simple_ok(*r, *v) && simple_matches(*r, *v, f),
            Err(e) => !simple_ok(*r, *v) && e == simple_reason(*r, *v),
        },
{
    match r {
        SimpleRule::Required(k) => decode_kind(*k, v),
        SimpleRule::Optional(k) => {
            match v {
                JsonValue::Null => Ok(FieldValue::Absent),
                _ => decode_kind(*k, v),
            }
        },
        SimpleRule::OptionalSentinel(sent) => {
            match v {
                JsonValue::Num(n) => {
                    if *n == *sent {
                        Ok(FieldValue::Absent)
                    } else {
                        Ok(FieldValue::Num(*n))
                    }
                },
                _ => Err(DecodeReason::WrongType),
            }
        },
        SimpleRule::Skip => Ok(FieldValue::Skipped),
        SimpleRule::Flags => {
            match decode_flags_value(v) {
                Ok(g) => Ok(FieldValue::Flags(g)),
                Err(e) => Err(e),
            }
        },
        SimpleRule::CoercibleNumeric => {
            match v {
                JsonValue::Num(n) => Ok(FieldValue::Num(*n)),
                JsonValue::Str(s) => {
                    match parse_decimal(s.as_str()) {
                        Some(n) => Ok(FieldValue::Num(n)),
                        None => Err(DecodeReason::NotNumeric),
                    }
                },
                _ => Err(DecodeReason::WrongType),
            }
        },
    }
}

/// Decode one flat row: each rule consumes one element in order. Fails on
/// the first unsatisfiable slot; trailing elements are ignored.
pub fn decode_flat(schema: &Vec<SimpleRule>, arr: &Vec<JsonValue>) -> (r: Result<
    Vec<FieldValue>,
    DecodeError,
>)
    ensures
        match r {
            Ok(fields) => {
                &&& flat_ok(schema@, arr@)
                &&& fields@.len() == schema@.len()
                &&& forall|i: int|
                    0 <= i < schema@.len() ==> simple_matches(
                        schema@[i],
                        arr@[i],
                        #[trigger] fields@[i],
                    )
            },
            Err(e) => !flat_ok(schema@, arr@) && e == flat_error(schema@, arr@),
        },
{
    let mut fields: Vec<FieldValue> = Vec::new();
    let n = schema.len();
    let mut i: usize = 0;
    while i < n
        invariant
            n == schema@.len(),
            0 <= i <= n,
            i <= arr@.len(),
            fields@.len() == i,
            forall|j: int| 0 <= j < i ==> simple_ok(#[trigger] schema@[j], arr@[j]),
            forall|j: int|
                0 <= j < i ==> simple_matches(schema@[j], arr@[j], #[trigger] fields@[j]),
        decreases n - i,
    {
        if i >= arr.len() {
            proof {
                lemma_flat_fail_skip(schema@, arr@, i as int);
            }
            return Err(DecodeError::at(i, DecodeReason::Missing));
        }
        match decode_simple(&schema[i], &arr[i]) {
            Ok(f) => {
                fields.push(f);
            },
            Err(e) => {
                proof {
                    lemma_flat_fail_skip(schema@, arr@, i as int);
                }
                return Err(DecodeError::at(i, e));
            },
        }
        i = i + 1;
    }
    Ok(fields)
}

/// Decode one record: each rule consumes one element in order, and a nested
/// rule decodes its element as a row by its own flat table. Fails on the
/// first unsatisfiable slot, naming it; trailing elements are ignored.
pub fn decode_record(schema: &Vec<Rule>, arr: &Vec<JsonValue>) -> (r: Result<
    Vec<FieldValue>,
    DecodeError,
>)
    ensures
        match r {
            Ok(fields) => {
                &&& record_ok(schema@, arr@)
                &&& fields@.len() == schema@.len()
                &&& forall|i: int|
                    0 <= i < schema@.len() ==> rule_matches(
                        schema@[i],
                        arr@[i],
                        #[trigger] fields@[i],
                    )
            },
            Err(e) => !record_ok(schema@, arr@) && e == record_error(schema@, arr@),
        },
{
    let mut fields: Vec<FieldValue> = Vec::new();
    let n = schema.len();
    let mut i: usize = 0;
    while i < n
        invariant
            n == schema@.len(),
            0 <= i <= n,
            i <= arr@.len(),
            fields@.len() == i,
            forall|j: int| 0 <= j < i ==> rule_ok(#[trigger] schema@[j], arr@[j]),
            forall|j: int| 0 <= j < i ==> rule_matches(schema@[j], arr@[j], #[trigger] fields@[j]),
        decreases n - i,
    {
        if i >= arr.len() {
            proof {
                lemma_record_fail_skip(schema@, arr@, i as int);
            }
            return Err(DecodeError::at(i, DecodeReason::Missing));
        }
        match &schema[i] {
            Rule::Slot(sr) => {
                match decode_simple(sr, &arr[i]) {
                    Ok(f) => {
                        fields.push(f);
                    },
                    Err(e) => {
                        proof {
                            lemma_record_fail_skip(schema@, arr@, i as int);
                        }
                        return Err(DecodeError::at(i, e));
                    },
                }
            },
            Rule::Nested(child) => {
                match arr[i].as_array() {
                    Some(inner) => {
                        match decode_flat(child, inner) {
                            Ok(row) => {
                                fields.push(FieldValue::Row(row));
                            },
                            Err(e) => {
                                proof {
                                    lemma_record_fail_skip(schema@, arr@, i as int);
                                }
                                return Err(
                                    DecodeError {
                                        field: i,
                                        column: Some(e.field),
                                        reason: e.reason,
                                    },
                                );
                            },
                        }
                    },
                    None => {
                        proof {
                            lemma_record_fail_skip(schema@, arr@, i as int);
                        }
                        return Err(DecodeError::at(i, DecodeReason::WrongType));
                    },
                }
            },
        }
        i = i + 1;
    }
    Ok(fields)
}

impl FieldValue {
    /// Read a required whole-number slot.
    pub fn as_u64(&self) -> (r: u64)
        requires
            self matches FieldValue::U64(_),
        ensures
            *self == FieldValue::U64(r),
    {
        match self {
            FieldValue::U64(u) => *u,
            _ => {
                proof {
                    assert(false);
                }
                0
            },
        }
    }

    /// Read an optional whole-number slot.
    pub fn as_opt_u64(&self) -> (r: Option<u64>)
        requires
            self matches FieldValue::U64(_) || self is Absent,
        ensures
            match r {
                Some(u) => *self == FieldValue::U64(u),
                None => self is Absent,
            },
    {
        match self {
            FieldValue::U64(u) => Some(*u),
            _ => None,
        }
    }

    /// Read a required number slot.
    pub fn as_num(&self) -> (r: Number)
        requires
            self matches FieldValue::Num(_),
        ensures
            *self == FieldValue::Num(r),
    {
        match self {
            FieldValue::Num(n) => *n,
            _ => {
                proof {
                    assert(false);
                }
                Number { neg: false, mag: 0, scale: 0 }
            },
        }
    }

    /// Read an optional number slot.
    pub fn as_opt_num(&self) -> (r: Option<Number>)
        requires
            self matches FieldValue::Num(_) || self is Absent,
        ensures
            match r {
                Some(n) => *self == FieldValue::Num(n),
                None => self is Absent,
            },
    {
        match self {
            FieldValue::Num(n) => Some(*n),
            _ => None,
        }
    }

    /// Read a required string slot.
    pub fn as_string(&self) -> (r: String)
        requires
            self matches FieldValue::Str(_),
        ensures
            self matches FieldValue::Str(s) && r@ == s@,
    {
        match self {
            FieldValue::Str(s) => s.clone(),
            _ => {
                proof {
                    assert(false);
                }
                String::new()
            },
        }
    }

    /// Read an optional string slot.
    pub fn as_opt_string(&self) -> (r: Option<String>)
        requires
            self matches FieldValue::Str(_) || self is Absent,
        ensures
            match r {
                Some(t) => self matches FieldValue::Str(s) && t@ == s@,
                None => self is Absent,
            },
    {
        match self {
            FieldValue::Str(s) => Some(s.clone()),
            _ => None,
        }
    }

    /// Read a boolean slot.
    pub fn as_bool(&self) -> (r: bool)
        requires
            self matches FieldValue::Bool(_),
        ensures
            *self == FieldValue::Bool(r),
    {
        match self {
            FieldValue::Bool(b) => *b,
            _ => {
                proof {
                    assert(false);
                }
                false
            },
        }
    }

    /// Read a flags slot.
    pub fn as_flags(&self) -> (r: OrderFlags)
        requires
            self matches FieldValue::Flags(_),
        ensures
            *self == FieldValue::Flags(r),
    {
        match self {
            FieldValue::Flags(g) => *g,
            _ => {
                proof {
                    assert(false);
                }
                OrderFlags { bits: 0 }
            },
        }
    }

    /// Read one number column of a nested row slot.
    pub fn row_num(&self, j: usize) -> (r: Number)
        requires
            self matches FieldValue::Row(row) && j < row@.len() && row@[j as int] matches
                FieldValue::Num(_),
        ensures
            self matches FieldValue::Row(row) && row@[j as int] == FieldValue::Num(r),
    {
        match self {
            FieldValue::Row(row) => row[j].as_num(),
            _ => {
                proof {
                    assert(false);
                }
                Number { neg: false, mag: 0, scale: 0 }
            },
        }
    }
}

} // verus!
