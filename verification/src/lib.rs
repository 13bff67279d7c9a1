//! Client-side protocol layer for an exchange API that returns positionally
//! encoded arrays and requires every private request to be signed with a
//! per-request nonce and an HMAC over the canonical request path.
//!
//! The crate is organised around two subsystems:
//! - request authentication: nonce generation and HMAC-SHA384 signing
//!   (`auth`), and
//! - positional response decoding: a generic rule-table walker (`schema`),
//!   an envelope unwrapper (`envelope`), a bit-flag codec (`flags`), and the
//!   typed records decoded through them (`orders`, `responses`).
//!
//! JSON values are modeled by `json::JsonValue`, with numbers carried as
//! exact decimals (`num::Number`); the HTTP transport lives outside this
//! crate and hands decoders plain values.

pub mod account;
pub mod auth;
pub mod book;
pub mod candles;
pub mod endpoints;
pub mod envelope;
pub mod errors;
pub mod flags;
pub mod json;
pub mod num;
pub mod orders;
pub mod responses;
pub mod schema;
pub mod text;
