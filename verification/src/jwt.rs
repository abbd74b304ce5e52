//! Reading the expiry claim out of a JWT bearer token.
//!
//! A JWT is three dot-separated base64 segments; the middle one decodes to
//! a JSON document whose `exp` claim is the token's absolute expiry in
//! seconds since the Unix epoch.  The splitting is verified here; the
//! base64 and UTF-8 decodings and the claim lookup are trusted calls, and
//! the remaining lifetime is computed with an explicit zero floor so the
//! subtraction can never underflow.

use vstd::prelude::*;

use crate::error::MyError;
use crate::refresh::clamped_sub;
use crate::wire::{find_char, first_occur, json_u64_field, json_u64_field_of};

verus! {

/// The bytes a standard-alphabet base64 string decodes to, if it is
/// valid.
pub uninterp spec fn b64_decode_of(s: Seq<char>) -> Option<Seq<u8>>;

/// Relies on base64's BASE64_STANDARD engine: whether a string is valid
/// standard-alphabet base64, and what it decodes to, is a function of the
/// string alone.
#[verifier::external_body]
pub(crate) fn b64_decode(s: &str) -> (r: Option<Vec<u8>>)
    ensures
        r is Some <==> b64_decode_of(s@) is Some,
        r matches Some(v) ==> b64_decode_of(s@) == Some(v@),
{
    base64::Engine::decode(&base64::prelude::BASE64_STANDARD, s).ok()
}

/// The text a byte sequence decodes to as UTF-8, if it is valid.
pub uninterp spec fn utf8_of(bytes: Seq<u8>) -> Option<Seq<char>>;

/// Relies on String::from_utf8: whether bytes are valid UTF-8, and which
/// text they denote, is a function of the bytes alone.
#[verifier::external_body]
pub(crate) fn utf8_string(bytes: Vec<u8>) -> (r: Option<String>)
    ensures
        r is Some <==> utf8_of(bytes@) is Some,
        r matches Some(s) ==> utf8_of(bytes@) == Some(s@),
{
    String::from_utf8(bytes).ok()
}

/// The three dot-separated segments of `s`, if it has exactly two dots.
pub open spec fn dot_split3(s: Seq<char>) -> Option<(Seq<char>, Seq<char>, Seq<char>)> {
    match first_occur(s, '.', 0) {
        None => None,
        Some(i) => match first_occur(s, '.', i + 1) {
            None => None,
            Some(j) => if first_occur(s, '.', j + 1) is Some {
                None
            } else {
                Some((s.subrange(0, i), s.subrange(i + 1, j), s.subrange(j + 1, s.len() as int)))
            },
        },
    }
}

/// Splits a string at its dots into exactly three segments; anything with
/// more or fewer than two dots is rejected.
pub fn split3_dots(s: &str) -> (r: Option<(String, String, String)>)
    ensures
        r is Some <==> dot_split3(s@) is Some,
        r matches Some(p) ==> dot_split3(s@) == Some((p.0@, p.1@, p.2@)),
{
    let n = s.unicode_len();
    let i = match find_char(s, '.', 0) {
        Some(i) => i,
        None => {
            return None;
        },
    };
    let j = match find_char(s, '.', i + 1) {
        Some(j) => j,
        None => {
            return None;
        },
    };
    match find_char(s, '.', j + 1) {
        Some(_) => None,
        None => {
            let a = s.substring_char(0, i).to_owned();
            let b = s.substring_char(i + 1, j).to_owned();
            let c = s.substring_char(j + 1, n).to_owned();
            Some((a, b, c))
        },
    }
}

/// The `exp` claim a JWT carries, if the token has three segments, the
/// payload segment decodes as base64 and UTF-8, and the claim is present.
pub open spec fn jwt_exp_of(token: Seq<char>) -> Option<u64> {
    match dot_split3(token) {
        None => None,
        Some(parts) => match b64_decode_of(parts.1) {
            None => None,
            Some(bytes) => match utf8_of(bytes) {
                None => None,
                Some(payload) => json_u64_field_of(payload, "exp"@),
            },
        },
    }
}

/// Seconds from `now` until the token's `exp` claim, floored at zero for
/// an already-expired token.  Each way the token can be unreadable — wrong
/// segment count, invalid base64, invalid text, missing claim — is its own
/// descriptive error.
pub fn jwt_expire_time(token: &str, now: u64) -> (r: Result<u64, MyError>)
    ensures
        r is Ok <==> jwt_exp_of(token@) is Some,
        r matches Ok(d) ==> d == clamped_sub(jwt_exp_of(token@).unwrap(), now),
        r matches Err(e) ==> match dot_split3(token@) {
            None => e is Message,
            Some(parts) => match b64_decode_of(parts.1) {
                None => e is DecoderError,
                Some(bytes) => match utf8_of(bytes) {
                    None => e is UtfError,
                    Some(payload) => e is Message && json_u64_field_of(payload, "exp"@) is None,
                },
            },
        },
{
    let parts = match split3_dots(token) {
        Some(p) => p,
        None => {
            return Err(MyError::Message("JWT does not have 3 parts".to_owned()));
        },
    };
    let payload_bytes = match b64_decode(parts.1.as_str()) {
        Some(b) => b,
        None => {
            return Err(MyError::DecoderError("JWT payload is not valid base64".to_owned()));
        },
    };
    let payload = match utf8_string(payload_bytes) {
        Some(s) => s,
        None => {
            return Err(MyError::UtfError("JWT payload is not valid text".to_owned()));
        },
    };
    let exp = match json_u64_field(payload.as_str(), "exp") {
        Some(e) => e,
        None => {
            return Err(MyError::Message("Missing exp field in JWT payload".to_owned()));
        },
    };
    if exp >= now {
        Ok(exp - now)
    } else {
        Ok(0)
    }
}

/// Relies on chrono::Utc::now: the clock's current reading as seconds
/// since the Unix epoch, floored at zero.  Nothing more can be promised of
/// a clock, so callers take the reading as a plain value.
#[verifier::external_body]
pub(crate) fn unix_now() -> (r: u64) {
    let ts = chrono::Utc::now().timestamp();
    if ts < 0 {
        0
    } else {
        ts as u64
    }
}

/// Seconds until the token's expiry claim, measured from the clock now.
/// Whether the token is readable at all does not depend on the clock;
/// which remaining lifetime comes back does, so only the error taxonomy
/// is pinned here and [`jwt_expire_time`] carries the exact value
/// contract.
pub fn jwt_remaining_now(token: &str) -> (r: Result<u64, MyError>)
    ensures
        r is Ok <==> jwt_exp_of(token@) is Some,
        r matches Err(e) ==> match dot_split3(token@) {
            None => e is Message,
            Some(parts) => match b64_decode_of(parts.1) {
                None => e is DecoderError,
                Some(bytes) => match utf8_of(bytes) {
                    None => e is UtfError,
                    Some(payload) => e is Message && json_u64_field_of(payload, "exp"@) is None,
                },
            },
        },
{
    let now = unix_now();
    jwt_expire_time(token, now)
}

} // verus!
