//! Trusted boundary to the base64 codec and to std's UTF-8 decoding.
//!
//! Everything else in the crate reasons about these calls only through the
//! contracts stated here.

use vstd::prelude::*;

verus! {

use vstd::utf8::decode_utf8;
use vstd::utf8::valid_utf8;

/// What base64's `STANDARD` engine `decode` returns on the given input:
/// `Some` bytes for a well-formed token of the padded standard alphabet,
/// `None` for a malformed one.
pub uninterp spec fn b64_decode(token: Seq<u8>) -> Option<Seq<u8>>;

/// Relies on `base64::engine::general_purpose::STANDARD.decode`.
#[verifier::external_body]
pub(crate) fn base64_decode(token: &[u8]) -> (r: Option<Vec<u8>>)
    ensures
        r matches Some(b) ==> b64_decode(token@) == Some(b@),
        r is None <==> b64_decode(token@) is None,
{
    match base64::Engine::decode(&base64::engine::general_purpose::STANDARD, token) {
        Ok(bytes) => Some(bytes),
        Err(_) => None,
    }
}

/// Relies on `base64::engine::general_purpose::STANDARD.encode`, and on the
/// documented round trip: `decode` inverts `encode` for the same engine.
#[verifier::external_body]
pub(crate) fn base64_encode(payload: &[u8]) -> (r: Vec<u8>)
    ensures
        b64_decode(r@) == Some(payload@),
{
    base64::Engine::encode(&base64::engine::general_purpose::STANDARD, payload).into_bytes()
}

/// Relies on `String::from_utf8`: it succeeds exactly on valid UTF-8 and
/// returns the string those bytes encode.
#[verifier::external_body]
pub(crate) fn string_from_utf8(bytes: Vec<u8>) -> (r: Option<String>)
    ensures
        r is Some <==> valid_utf8(bytes@),
        r matches Some(s) ==> s@ == decode_utf8(bytes@),
{
    match String::from_utf8(bytes) {
        Ok(s) => Some(s),
        Err(_) => None,
    }
}

/// Relies on `String::push_str`: appends the slice's characters.
#[verifier::external_body]
pub(crate) fn push_str(s: &mut String, t: &str)
    ensures
        final(s)@ == old(s)@ + t@,
{
    s.push_str(t);
}

} // verus!
