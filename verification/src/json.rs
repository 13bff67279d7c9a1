//! The JSON values that the positional decoders walk.
//!
//! The transport parses response text and hands the decoders values of this
//! shape; numbers arrive as exact decimals (`num::Number`).

use crate::num::Number;
use vstd::prelude::*;

verus! {

/// One JSON value. Objects keep their members in wire order; the decoders
/// never look inside them.
pub enum JsonValue {
    Null,
    Bool(bool),
    Num(Number),
    Str(String),
    Arr(Vec<JsonValue>),
    Obj(Vec<(String, JsonValue)>),
}

impl JsonValue {
    /// The element sequence, exactly when the value is an array.
    pub fn as_array(&self) -> (r: Option<&Vec<JsonValue>>)
        ensures
            match r {
                Some(v) => self is Arr && *v == self->Arr_0,
                None => !(self is Arr),
            },
    {
        match self {
            JsonValue::Arr(v) => Some(v),
            _ => None,
        }
    }
}

} // verus!
