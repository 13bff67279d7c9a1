//! Request authentication: nonces and HMAC-SHA384 request signing.
//!
//! Every private request carries a per-credential nonce and a lower-case hex
//! HMAC-SHA384 signature over the exact byte string
//! `"/api" ++ path ++ nonce ++ payload` — the concatenation order is
//! load-bearing, because the exchange reconstructs the same bytes server
//! side. The HMAC itself comes from an outside cryptography crate and is
//! named, not restated: what this module proves is that the signing input is
//! assembled exactly, that the encoding is exact lower-case hex, and that
//! the nonce counter strictly increases, so no nonce is ever reused.

use crate::errors::ClockError;
use crate::num::{dec_chars, lemma_dec_chars_injective, u128_to_decimal};
use vstd::prelude::*;
use vstd::string::StringSliceAdditionalSpecFns;

verus! {

/// The HMAC-SHA384 tag of a message under a key. The tag is a pure function
/// of the key and message bytes; its pages-long definition lives in the
/// cryptography crate and is deliberately left uninterpreted here.
pub uninterp spec fn hmac_sha384(key: Seq<u8>, msg: Seq<u8>) -> Seq<u8>;

/// The character for one hex digit, lower case.
pub open spec fn hex_digit(d: nat) -> char {
    if d == 0 {
        '0'
    } else if d == 1 {
        '1'
    } else if d == 2 {
        '2'
    } else if d == 3 {
        '3'
    } else if d == 4 {
        '4'
    } else if d == 5 {
        '5'
    } else if d == 6 {
        '6'
    } else if d == 7 {
        '7'
    } else if d == 8 {
        '8'
    } else if d == 9 {
        '9'
    } else if d == 10 {
        'a'
    } else if d == 11 {
        'b'
    } else if d == 12 {
        'c'
    } else if d == 13 {
        'd'
    } else if d == 14 {
        'e'
    } else {
        'f'
    }
}

/// Lower-case hex encoding: two digits per byte, high nibble first.
pub open spec fn spec_hex(b: Seq<u8>) -> Seq<char>
    decreases b.len(),
{
    if b.len() == 0 {
        Seq::empty()
    } else {
        spec_hex(b.drop_last()) + seq![
            hex_digit((b.last() >> 4) as nat),
            hex_digit((b.last() & 0x0f) as nat),
        ]
    }
}

pub proof fn lemma_spec_hex_len(b: Seq<u8>)
    ensures
        spec_hex(b).len() == 2 * b.len(),
    decreases b.len(),
{
    if b.len() > 0 {
        lemma_spec_hex_len(b.drop_last());
    }
}

proof fn lemma_hex_digit_injective(a: nat, b: nat)
    requires
        a < 16,
        b < 16,
        hex_digit(a) == hex_digit(b),
    ensures
        a == b,
{
}

/// Hex encoding is injective: equal signatures can only come from equal
/// tags, never from the encoding collapsing two tags.
pub proof fn lemma_spec_hex_injective(a: Seq<u8>, b: Seq<u8>)
    requires
        spec_hex(a) == spec_hex(b),
    ensures
        a == b,
    decreases a.len(),
{
    lemma_spec_hex_len(a);
    lemma_spec_hex_len(b);
    if a.len() == 0 {
        assert(a =~= b);
    } else {
        let ha = spec_hex(a);
        let hb = spec_hex(b);
        assert(ha[ha.len() - 2] == hex_digit((a.last() >> 4) as nat));
        assert(ha[ha.len() - 1] == hex_digit((a.last() & 0x0f) as nat));
        assert(hb[hb.len() - 2] == hex_digit((b.last() >> 4) as nat));
        assert(hb[hb.len() - 1] == hex_digit((b.last() & 0x0f) as nat));
        let x = a.last();
        let y = b.last();
        assert((x >> 4) < 16 && (x & 0x0f) < 16 && (y >> 4) < 16 && (y & 0x0f) < 16)
            by (bit_vector);
        lemma_hex_digit_injective((x >> 4) as nat, (y >> 4) as nat);
        lemma_hex_digit_injective((x & 0x0f) as nat, (y & 0x0f) as nat);
        assert(x == y) by (bit_vector)
            requires
                x >> 4 == y >> 4,
                x & 0x0f == y & 0x0f,
        ;
        assert(spec_hex(a.drop_last()) =~= ha.take(ha.len() - 2));
        assert(spec_hex(b.drop_last()) =~= hb.take(hb.len() - 2));
        lemma_spec_hex_injective(a.drop_last(), b.drop_last());
        assert(a =~= a.drop_last().push(a.last()));
        assert(b =~= b.drop_last().push(b.last()));
    }
}

/// Relies on ring's HMAC with the SHA-384 algorithm: the tag is a pure
/// function of the key and message bytes, 48 bytes long; keys of any length
/// are accepted (short keys are zero-padded, long keys are digested first,
/// as RFC 2104 fixes).
#[verifier::external_body]
fn hmac_sha384_tag(key: &[u8], msg: &[u8]) -> (r: Vec<u8>)
    ensures
        r@ == hmac_sha384(key@, msg@),
        r@.len() == 48,
{
    ring::hmac::sign(&ring::hmac::Key::new(ring::hmac::HMAC_SHA384, key), msg).as_ref().to_vec()
}

/// Relies on hex::encode: two lower-case hex digits per byte, high nibble
/// first.
#[verifier::external_body]
fn hex_encode(b: &[u8]) -> (r: String)
    ensures
        r@ == spec_hex(b@),
{
    hex::encode(b)
}

/// Sign a payload: the lower-case hex HMAC-SHA384 of the payload bytes under
/// the secret key. Pure and total — same inputs, same signature, always.
pub fn sign_payload(secret: &[u8], payload: &[u8]) -> (r: String)
    ensures
        r@ == spec_hex(hmac_sha384(secret@, payload@)),
        r@.len() == 96,
{
    let tag = hmac_sha384_tag(secret, payload);
    let r = hex_encode(tag.as_slice());
    proof {
        lemma_spec_hex_len(tag@);
    }
    r
}

/// The exact character sequence that is signed for an authenticated request.
pub open spec fn sig_input_chars(path: Seq<char>, nonce: Seq<char>, payload: Seq<char>) -> Seq<
    char,
> {
    "/api"@ + path + nonce + payload
}

/// Assemble the byte-exact signing input `"/api" ++ path ++ nonce ++
/// payload`, with no separators.
pub fn signature_input(path: &str, nonce: &str, payload: &str) -> (r: String)
    ensures
        r@ == sig_input_chars(path@, nonce@, payload@),
{
    let mut r = "/api".to_owned();
    r.append(path);
    r.append(nonce);
    r.append(payload);
    r
}

/// Distinct nonces can never collapse to the same signing input, whatever
/// the path and payload: the signing inputs themselves already differ, so
/// equal signatures for distinct nonces would take an HMAC-SHA384 collision
/// (`lemma_spec_hex_injective` rules the hex encoding out as a source).
pub proof fn lemma_distinct_nonces_distinct_inputs(
    path: Seq<char>,
    n1: Seq<char>,
    n2: Seq<char>,
    payload: Seq<char>,
)
    requires
        n1 != n2,
    ensures
        sig_input_chars(path, n1, payload) != sig_input_chars(path, n2, payload),
{
    let a = "/api"@ + path;
    let full1 = sig_input_chars(path, n1, payload);
    let full2 = sig_input_chars(path, n2, payload);
    if full1 == full2 {
        assert(full1 =~= (a + n1) + payload);
        assert(full2 =~= (a + n2) + payload);
        assert(full1.len() == a.len() + n1.len() + payload.len());
        assert(full2.len() == a.len() + n2.len() + payload.len());
        assert(n1.len() == n2.len());
        assert forall|i: int| 0 <= i < n1.len() implies n1[i] == n2[i] by {
            assert(full1[a.len() + i] == n1[i]);
            assert(full2[a.len() + i] == n2[i]);
        }
        assert(n1 =~= n2);
    }
}

/// Signing is deterministic: for one (secret, path, nonce, payload) tuple
/// there is exactly one signature, so two signatures over the same tuple are
/// identical.
pub proof fn lemma_sign_deterministic(
    secret: Seq<u8>,
    path: Seq<char>,
    nonce: Seq<char>,
    payload: Seq<char>,
    r1: Seq<char>,
    r2: Seq<char>,
)
    requires
        r1 == spec_hex(
            hmac_sha384(secret, vstd::utf8::encode_utf8(sig_input_chars(path, nonce, payload))),
        ),
        r2 == spec_hex(
            hmac_sha384(secret, vstd::utf8::encode_utf8(sig_input_chars(path, nonce, payload))),
        ),
    ensures
        r1 == r2,
{
}

/// The authenticated header set, derived purely from the signer inputs.
/// Names and values are wire-exact; with a fixed nonce the whole set is a
/// deterministic function of the inputs.
pub fn auth_headers(api_key: &str, secret_key: &str, path: &str, nonce: &str, payload: &str) -> (h:
    Vec<(String, String)>)
    ensures
        h@.len() == 5,
        h@[0].0@ == "User-Agent"@ && h@[0].1@ == "bitfinex-rs"@,
        h@[1].0@ == "bfx-nonce"@ && h@[1].1@ == nonce@,
        h@[2].0@ == "bfx-apikey"@ && h@[2].1@ == api_key@,
        h@[3].0@ == "bfx-signature"@ && h@[3].1@ == spec_hex(
            hmac_sha384(
                secret_key.spec_bytes(),
                vstd::utf8::encode_utf8(sig_input_chars(path@, nonce@, payload@)),
            ),
        ),
        h@[4].0@ == "Content-Type"@ && h@[4].1@ == "application/json"@,
{
    let input = signature_input(path, nonce, payload);
    let signature = sign_payload(secret_key.as_bytes(), input.as_str().as_bytes());
    let mut h: Vec<(String, String)> = Vec::new();
    h.push(("User-Agent".to_owned(), "bitfinex-rs".to_owned()));
    h.push(("bfx-nonce".to_owned(), nonce.to_owned()));
    h.push(("bfx-apikey".to_owned(), api_key.to_owned()));
    h.push(("bfx-signature".to_owned(), signature));
    h.push(("Content-Type".to_owned(), "application/json".to_owned()));
    h
}

/// Relies on std::time::SystemTime: the microseconds since the Unix epoch,
/// or nothing when the clock reads earlier than the epoch. The reading
/// depends on the machine's clock, so nothing more can be promised of it.
#[verifier::external_body]
fn clock_micros() -> (r: Option<u128>)
{
    std::time::SystemTime::now()
        .duration_since(std::time::UNIX_EPOCH)
        .ok()
        .map(|d| d.as_micros())
}

/// Produces the nonces for one credential pair: decimal strings whose values
/// strictly increase call over call, so no nonce is ever issued twice. Each
/// call samples the microsecond clock and takes the sample when it is fresh,
/// the successor of the last nonce when it is not; share one generator (or
/// add a sub-millisecond jitter delay before each call, as the transport
/// does) per credential pair.
#[derive(Debug)]
pub struct NonceGenerator {
    last: u128,
}

impl NonceGenerator {
    /// The value of the last nonce issued, zero before any call.
    pub closed spec fn spec_last(self) -> nat {
        self.last as nat
    }

    pub fn new() -> (r: NonceGenerator)
        ensures
            r.spec_last() == 0,
    {
        NonceGenerator { last: 0 }
    }

    /// Draw the next nonce: a decimal string whose value strictly exceeds
    /// every nonce this generator has issued. Fails with `ClockError` when
    /// the system clock reads before the epoch (or, unreachably in practice,
    /// when the counter is exhausted); the generator is then unchanged and
    /// no nonce is consumed.
    pub fn next(&mut self) -> (r: Result<String, ClockError>)
        ensures
            match r {
                Ok(s) => {
                    &&& old(self).spec_last() < final(self).spec_last()
                    &&& s@ == dec_chars(final(self).spec_last())
                },
                Err(_) => *final(self) == *old(self),
            },
    {
        match clock_micros() {
            None => Err(ClockError),
            Some(m) => {
                let v: u128 = if m > self.last {
                    m
                } else if self.last == u128::MAX {
                    return Err(ClockError);
                } else {
                    self.last + 1
                };
                self.last = v;
                Ok(u128_to_decimal(v))
            },
        }
    }
}

/// No two nonce values ever write the same nonce string: decimal notation is
/// injective, so the strict increase of the counter makes every issued nonce
/// distinct from every earlier one.
pub proof fn lemma_distinct_nonce_values_distinct_strings(a: nat, b: nat)
    requires
        a != b,
    ensures
        dec_chars(a) != dec_chars(b),
{
    if dec_chars(a) == dec_chars(b) {
        lemma_dec_chars_injective(a, b);
    }
}

} // verus!
