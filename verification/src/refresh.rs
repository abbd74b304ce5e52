//! Decision steps of the token refresher loops.
//!
//! A refresher repeats one cycle: exchange credentials, then either publish
//! the new token and sleep until shortly before it expires, or leave the
//! previously published token untouched and sleep a fixed failure interval.
//! The cycle's decision — what to publish and how long to sleep — is taken
//! here over plain values; performing the exchange and the sleep, and
//! racing the sleep against the cancellation signal, happen outside the
//! library.

use vstd::prelude::*;

use crate::token_cell::{AccessToken, AccessTokenV, TokenCell};
use crate::wire::{
    json_plain_string, json_plain_string_of, json_str_field_of, parse_token_response,
    token_response_ok,
};

verus! {

/// What one credential exchange came back with.
#[derive(Debug)]
pub enum FetchOutcome {
    /// The endpoint answered with a success status and this body.
    Success(String),
    /// The endpoint answered with this non-success status.
    HttpStatus(u16),
    /// The transport failed before any status was received.
    TransportError(String),
}

/// What the loop around the refresher must do next.
#[derive(Debug, PartialEq, Eq)]
pub enum RefreshAction {
    /// Sleep this many seconds, racing the sleep against cancellation,
    /// then run the next cycle.
    Sleep(u64),
    /// Leave the loop at once, without completing any pending sleep.
    Stop,
}

/// Addition on seconds, pinned to the ceiling of `u64`.
pub open spec fn sat_add_u64(a: u64, b: u64) -> u64 {
    if a + b > u64::MAX {
        u64::MAX
    } else {
        (a + b) as u64
    }
}

/// Subtraction on seconds with an explicit zero floor.
pub open spec fn clamped_sub(a: u64, b: u64) -> u64 {
    if a >= b {
        (a - b) as u64
    } else {
        0
    }
}

/// Seconds to sleep after publishing a token that lives `expires_in`
/// seconds: the lifetime minus the safety margin, clamped to zero so the
/// subtraction can never underflow.
pub fn refresh_wait(expires_in: u64, auth_margin: u64) -> (r: u64)
    ensures
        r == clamped_sub(expires_in, auth_margin),
{
    if expires_in >= auth_margin {
        expires_in - auth_margin
    } else {
        0
    }
}

/// The lifetime in seconds a well-formed token response reports.
pub open spec fn token_response_expires(body: Seq<char>) -> u64
    recommends
        token_response_ok(body),
{
    crate::wire::dec_digits_value(json_str_field_of(body, "expires_in"@).unwrap()) as u64
}

/// The token a successful identity refresh publishes: the reported bearer
/// with its absolute expiry, `now` plus the reported lifetime.
pub open spec fn published_identity_token(body: Seq<char>, now: u64) -> AccessTokenV {
    AccessTokenV {
        bearer: json_str_field_of(body, "access_token"@).unwrap(),
        expiry: sat_add_u64(now, token_response_expires(body)) as int,
    }
}

/// One cycle of the identity-provider refresher, after the exchange came
/// back with `outcome` at instant `now`.
///
/// On a well-formed success the new token is published wholesale and the
/// next wake is scheduled at the token's lifetime minus the safety margin,
/// clamped to zero; the published expiry is strictly in the future whenever
/// the reported lifetime is positive and the sum does not saturate.  On
/// every failure — transport error, non-success status, or a malformed
/// body — the previously published token is left in place, and the next
/// attempt comes after the fixed failure interval.  Cancellation stops the
/// loop at once and publishes nothing.
pub fn identity_refresh_step(
    cell: &mut TokenCell,
    outcome: &FetchOutcome,
    now: u64,
    auth_margin: u64,
    auth_fail_sleep: u64,
    cancelled: bool,
) -> (r: RefreshAction)
    ensures
        cancelled ==> r == RefreshAction::Stop && final(cell)@ == old(cell)@,
        !cancelled ==> match *outcome {
            FetchOutcome::Success(ref body) => {
                if token_response_ok(body@) {
                    &&& final(cell)@ == Some(published_identity_token(body@, now))
                    &&& r == RefreshAction::Sleep(
                        clamped_sub(token_response_expires(body@), auth_margin),
                    )
                    &&& (token_response_expires(body@) > 0 && now + token_response_expires(body@)
                        <= u64::MAX) ==> published_identity_token(body@, now).expiry > now
                } else {
                    final(cell)@ == old(cell)@ && r == RefreshAction::Sleep(auth_fail_sleep)
                }
            },
            FetchOutcome::HttpStatus(_) => final(cell)@ == old(cell)@ && r == RefreshAction::Sleep(
                auth_fail_sleep,
            ),
            FetchOutcome::TransportError(_) => final(cell)@ == old(cell)@ && r
                == RefreshAction::Sleep(auth_fail_sleep),
        },
{
    if cancelled {
        return RefreshAction::Stop;
    }
    match outcome {
        FetchOutcome::Success(body) => {
            match parse_token_response(body.as_str()) {
                Ok(t) => {
                    let expiry = now.saturating_add(t.expires_in);
                    let wait = refresh_wait(t.expires_in, auth_margin);
                    cell.publish(AccessToken { bearer: t.access_token, expiry });
                    RefreshAction::Sleep(wait)
                },
                Err(_) => RefreshAction::Sleep(auth_fail_sleep),
            }
        },
        FetchOutcome::HttpStatus(_) => RefreshAction::Sleep(auth_fail_sleep),
        FetchOutcome::TransportError(_) => RefreshAction::Sleep(auth_fail_sleep),
    }
}

/// The token a successful WebChat refresh publishes.  The WebChat endpoint
/// reports no usable lifetime, so the fixed refresh period stands in for
/// the expiry hint.
pub open spec fn published_webchat_token(body: Seq<char>, now: u64, refresh_period: u64) -> AccessTokenV {
    AccessTokenV {
        bearer: json_plain_string_of(body).unwrap(),
        expiry: sat_add_u64(now, refresh_period) as int,
    }
}

/// One cycle of the WebChat token refresher, after the exchange came back
/// with `outcome` at instant `now`.
///
/// The response body is one bare JSON string.  On success the token is
/// published wholesale and the next refresh comes after the fixed
/// conservative period; on every failure the previously published token
/// (or its absence) is preserved and the next attempt comes after the
/// fixed failure interval.  Cancellation stops the loop at once.
pub fn webchat_refresh_step(
    cell: &mut TokenCell,
    outcome: &FetchOutcome,
    now: u64,
    refresh_period: u64,
    auth_fail_sleep: u64,
    cancelled: bool,
) -> (r: RefreshAction)
    ensures
        cancelled ==> r == RefreshAction::Stop && final(cell)@ == old(cell)@,
        !cancelled ==> match *outcome {
            FetchOutcome::Success(ref body) => {
                if json_plain_string_of(body@) is Some {
                    &&& final(cell)@ == Some(published_webchat_token(body@, now, refresh_period))
                    &&& r == RefreshAction::Sleep(refresh_period)
                } else {
                    final(cell)@ == old(cell)@ && r == RefreshAction::Sleep(auth_fail_sleep)
                }
            },
            FetchOutcome::HttpStatus(_) => final(cell)@ == old(cell)@ && r == RefreshAction::Sleep(
                auth_fail_sleep,
            ),
            FetchOutcome::TransportError(_) => final(cell)@ == old(cell)@ && r
                == RefreshAction::Sleep(auth_fail_sleep),
        },
{
    if cancelled {
        return RefreshAction::Stop;
    }
    match outcome {
        FetchOutcome::Success(body) => {
            match json_plain_string(body.as_str()) {
                Some(token) => {
                    let expiry = now.saturating_add(refresh_period);
                    cell.publish(AccessToken { bearer: token, expiry });
                    RefreshAction::Sleep(refresh_period)
                },
                None => RefreshAction::Sleep(auth_fail_sleep),
            }
        },
        FetchOutcome::HttpStatus(_) => RefreshAction::Sleep(auth_fail_sleep),
        FetchOutcome::TransportError(_) => RefreshAction::Sleep(auth_fail_sleep),
    }
}

/// The authorization header value of the WebChat token exchange: the
/// static secret under its scheme prefix, not a bearer header.
pub fn webchat_auth_header(secret: &str) -> (r: String)
    ensures
        r@ == "BotConnector "@ + secret@,
{
    let mut s = "BotConnector ".to_owned();
    s.append(secret);
    s
}

/// The supervisor's fail-fast policy: it terminates — and propagates
/// cancellation to every refresher — as soon as the shared signal fires or
/// any one supervised task finishes, because these loops are designed to
/// run forever and any exit is treated as abnormal.
pub fn supervisor_should_stop(cancelled: bool, any_task_finished: bool) -> (r: bool)
    ensures
        r == (cancelled || any_task_finished),
{
    cancelled || any_task_finished
}

} // verus!
