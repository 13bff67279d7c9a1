//! The error taxonomy: decode failures, clock failures, and the transport
//! error categories that non-success responses are sorted into.

use vstd::prelude::*;

verus! {

/// Why one positional slot failed to decode.
#[derive(Clone, Copy, Debug, PartialEq, Eq, Structural)]
pub enum DecodeReason {
    /// the array ended before the schema was satisfied
    Missing,
    /// the slot holds a JSON value of the wrong shape
    WrongType,
    /// a flag value with bits outside the known flag set
    InvalidFlags,
    /// a slot that should hold a numeral string does not
    NotNumeric,
    /// a wire string outside a closed enumeration
    UnknownVariant,
}

/// A positional decode failure: the index of the first unsatisfiable slot,
/// the column inside that slot when the failure is within a nested row, and
/// the reason. Decoding never recovers partially: one such error fails the
/// whole record.
#[derive(Clone, Copy, Debug, PartialEq, Eq)]
pub struct DecodeError {
    pub field: usize,
    pub column: Option<usize>,
    pub reason: DecodeReason,
}

impl DecodeError {
    /// A failure of the slot itself.
    pub fn at(field: usize, reason: DecodeReason) -> (r: DecodeError)
        ensures
            r == (DecodeError { field, column: None::<usize>, reason }),
    {
        DecodeError { field, column: None, reason }
    }
}

/// The system clock reported a time before the epoch, so no nonce can be
/// formed from it.
#[derive(Clone, Copy, Debug, PartialEq, Eq, Structural)]
pub struct ClockError;

/// Transport-level failures, categorized by response status. Values carry
/// the response body text.
#[derive(Clone, Debug)]
pub enum RequestError {
    InvalidRequest(String),
    InternalServerError(String),
    Unauthorized,
    Unknown(String),
}

/// Sort a response by its HTTP status: success bodies go on to the decoder,
/// everything else becomes a typed transport error carrying the body.
pub fn categorize_response(status: u16, body: String) -> (r: Result<String, RequestError>)
    ensures
        status == 200 ==> r == Ok::<String, RequestError>(body),
        status == 500 ==> r == Err::<String, RequestError>(RequestError::InternalServerError(body)),
        status == 401 ==> r == Err::<String, RequestError>(RequestError::Unauthorized),
        status != 200 && status != 500 && status != 401 ==> r == Err::<String, RequestError>(
            RequestError::Unknown(body),
        ),
{
    if status == 200 {
        Ok(body)
    } else if status == 500 {
        Err(RequestError::InternalServerError(body))
    } else if status == 401 {
        Err(RequestError::Unauthorized)
    } else {
        Err(RequestError::Unknown(body))
    }
}

} // verus!
