//! Scenario tests of the refresher decision steps, discovery, the token
//! response readers and the JWT expiry claim.

use polecatteamsbot::error::MyError;
use polecatteamsbot::jwt::{jwt_expire_time, jwt_remaining_now, split3_dots};
use polecatteamsbot::refresh::{
    identity_refresh_step, refresh_wait, supervisor_should_stop, webchat_auth_header,
    webchat_refresh_step, FetchOutcome, RefreshAction,
};
use polecatteamsbot::token_cell::{AccessToken, TokenCell};
use polecatteamsbot::wire::{discover_endpoints, parse_token_response, parse_u64_dec};

#[test]
fn successful_refresh_publishes_future_expiry() {
    let mut cell = TokenCell::new();
    let body = r#"{"access_token":"tok-1","expires_in":"120"}"#.to_string();
    let action = identity_refresh_step(&mut cell, &FetchOutcome::Success(body), 1000, 60, 30, false);
    let published = cell.read().expect("token published");
    assert_eq!(published.bearer, "tok-1");
    assert_eq!(published.expiry, 1120);
    assert!(published.expiry > 1000, "expiry strictly in the future at publish time");
    assert_eq!(action, RefreshAction::Sleep(60), "wake at expiry minus margin");
}

#[test]
fn refresh_wait_clamps_to_zero() {
    assert_eq!(refresh_wait(100, 60), 40);
    assert_eq!(refresh_wait(60, 60), 0);
    assert_eq!(refresh_wait(30, 60), 0, "margin larger than lifetime must not underflow");
}

#[test]
fn failed_refresh_keeps_previous_token() {
    let mut cell = TokenCell::new();
    cell.publish(AccessToken { bearer: "old-token".to_string(), expiry: 500 });
    let action =
        identity_refresh_step(&mut cell, &FetchOutcome::HttpStatus(500), 1000, 60, 30, false);
    assert_eq!(action, RefreshAction::Sleep(30));
    let kept = cell.read().expect("stale token still readable");
    assert_eq!(kept.bearer, "old-token");
    assert_eq!(kept.expiry, 500);

    let action = identity_refresh_step(
        &mut cell,
        &FetchOutcome::TransportError("connection refused".to_string()),
        1000,
        60,
        30,
        false,
    );
    assert_eq!(action, RefreshAction::Sleep(30));
    assert_eq!(cell.read().expect("still there").bearer, "old-token");
}

#[test]
fn malformed_token_response_keeps_previous_token() {
    let mut cell = TokenCell::new();
    cell.publish(AccessToken { bearer: "old-token".to_string(), expiry: 500 });
    let body = r#"{"access_token":"tok-2"}"#.to_string();
    let action = identity_refresh_step(&mut cell, &FetchOutcome::Success(body), 1000, 60, 30, false);
    assert_eq!(action, RefreshAction::Sleep(30), "iteration fails, loop retries");
    assert_eq!(cell.read().expect("unchanged").bearer, "old-token");
}

#[test]
fn cancellation_stops_without_sleeping() {
    let mut cell = TokenCell::new();
    let body = r#"{"access_token":"tok-1","expires_in":"120"}"#.to_string();
    let action = identity_refresh_step(&mut cell, &FetchOutcome::Success(body), 1000, 60, 30, true);
    assert_eq!(action, RefreshAction::Stop);
    assert!(cell.read().is_none(), "nothing published after cancellation");

    let mut wc = TokenCell::new();
    let action =
        webchat_refresh_step(&mut wc, &FetchOutcome::HttpStatus(401), 1000, 900, 30, true);
    assert_eq!(action, RefreshAction::Stop);
}

#[test]
fn supervisor_stops_when_any_task_finishes() {
    assert!(!supervisor_should_stop(false, false));
    assert!(supervisor_should_stop(true, false));
    assert!(supervisor_should_stop(false, true));
    assert!(supervisor_should_stop(true, true));
}

#[test]
fn discovery_missing_token_endpoint_is_configuration_error() {
    let cell = TokenCell::new();
    let body = r#"{"issuer":"https://login.example.com"}"#;
    let err = discover_endpoints(body).expect_err("must fail without token_endpoint");
    assert!(matches!(err, MyError::DiscoveryError(_)));
    assert!(cell.read().is_none(), "no token is ever published");
}

#[test]
fn discovery_reads_both_endpoints() {
    let body = r#"{"issuer":"https://login.example.com","token_endpoint":"https://login.example.com/oauth2/token"}"#;
    let d = discover_endpoints(body).expect("well-formed document");
    assert_eq!(d.issuer, "https://login.example.com");
    assert_eq!(d.token_endpoint, "https://login.example.com/oauth2/token");
}

#[test]
fn webchat_401_sleeps_fail_interval_and_preserves_state() {
    let mut cell = TokenCell::new();
    let action = webchat_refresh_step(&mut cell, &FetchOutcome::HttpStatus(401), 1000, 900, 30, false);
    assert_eq!(action, RefreshAction::Sleep(30), "sleeps auth_fail_sleep, then retries");
    assert!(cell.read().is_none(), "absence preserved");

    cell.publish(AccessToken { bearer: "wc-old".to_string(), expiry: 1500 });
    let action = webchat_refresh_step(&mut cell, &FetchOutcome::HttpStatus(401), 1000, 900, 30, false);
    assert_eq!(action, RefreshAction::Sleep(30));
    assert_eq!(cell.read().expect("previous token preserved").bearer, "wc-old");
}

#[test]
fn webchat_success_publishes_bare_string_token() {
    let mut cell = TokenCell::new();
    let body = "\"wc-token\"".to_string();
    let action = webchat_refresh_step(&mut cell, &FetchOutcome::Success(body), 1000, 900, 30, false);
    assert_eq!(action, RefreshAction::Sleep(900), "fixed conservative refresh period");
    let published = cell.read().expect("published");
    assert_eq!(published.bearer, "wc-token", "the quotes are JSON framing, not token text");
    assert_eq!(published.expiry, 1900);
}

#[test]
fn webchat_header_is_scheme_prefixed() {
    assert_eq!(webchat_auth_header("wc-secret"), "BotConnector wc-secret");
}

#[test]
fn token_response_reader_errors() {
    let err = parse_token_response(r#"{"expires_in":"120"}"#).expect_err("no access_token");
    assert!(matches!(err, MyError::RequestTokenError(_)));
    let err = parse_token_response(r#"{"access_token":"t"}"#).expect_err("no expires_in");
    assert!(matches!(err, MyError::RequestTokenError(_)));
    let err =
        parse_token_response(r#"{"access_token":"t","expires_in":"x12"}"#).expect_err("not decimal");
    assert!(matches!(err, MyError::ParseIntError(_)));
    let err =
        parse_token_response(r#"{"access_token":"t","expires_in":120}"#).expect_err("number, not string");
    assert!(matches!(err, MyError::RequestTokenError(_)));
}

#[test]
fn token_response_reader_values() {
    let t = parse_token_response(r#"{"access_token":"abc","expires_in":"3599"}"#).expect("ok");
    assert_eq!(t.access_token, "abc");
    assert_eq!(t.expires_in, 3599);
}

#[test]
fn decimal_parser_edges() {
    assert_eq!(parse_u64_dec("0"), Some(0));
    assert_eq!(parse_u64_dec("3599"), Some(3599));
    assert_eq!(parse_u64_dec(""), None);
    assert_eq!(parse_u64_dec("12a"), None);
    assert_eq!(parse_u64_dec("+12"), None);
    assert_eq!(parse_u64_dec("18446744073709551615"), Some(u64::MAX));
    assert_eq!(parse_u64_dec("18446744073709551616"), None, "one past the ceiling");
}

fn b64(payload: &[u8]) -> String {
    base64::Engine::encode(&base64::prelude::BASE64_STANDARD, payload)
}

#[test]
fn jwt_expiry_claim_read_and_floored() {
    let token = format!("{}.{}.{}", b64(b"{\"alg\":\"none\"}"), b64(b"{\"exp\":2000}"), b64(b"sig"));
    assert_eq!(jwt_expire_time(&token, 1500).expect("ok"), 500);
    assert_eq!(jwt_expire_time(&token, 2500).expect("expired floors at zero"), 0);
}

#[test]
fn jwt_error_taxonomy() {
    let err = jwt_expire_time("only-one-part", 0).expect_err("no dots");
    assert!(matches!(err, MyError::Message(_)));
    let err = jwt_expire_time("a.b!!!.c", 0).expect_err("payload not base64");
    assert!(matches!(err, MyError::DecoderError(_)));
    let bad_utf8 = format!("{}.{}.{}", b64(b"h"), b64(&[0xff, 0xfe]), b64(b"s"));
    let err = jwt_expire_time(&bad_utf8, 0).expect_err("payload not text");
    assert!(matches!(err, MyError::UtfError(_)));
    let no_exp = format!("{}.{}.{}", b64(b"h"), b64(b"{\"sub\":\"x\"}"), b64(b"s"));
    let err = jwt_expire_time(&no_exp, 0).expect_err("claim missing");
    assert!(matches!(err, MyError::Message(_)));
}

#[test]
fn jwt_remaining_now_follows_the_claim() {
    let far_future = format!("{}.{}.{}", b64(b"h"), b64(b"{\"exp\":18446744073709551615}"), b64(b"s"));
    assert!(jwt_remaining_now(&far_future).expect("readable token") > 0);
    let long_gone = format!("{}.{}.{}", b64(b"h"), b64(b"{\"exp\":1}"), b64(b"s"));
    assert_eq!(jwt_remaining_now(&long_gone).expect("readable token"), 0);
    assert!(jwt_remaining_now("nodots").is_err());
}

#[test]
fn jwt_split_counts_segments() {
    let (a, b, c) = split3_dots("aa.bb.cc").expect("three segments");
    assert_eq!((a.as_str(), b.as_str(), c.as_str()), ("aa", "bb", "cc"));
    assert!(split3_dots("aa.bb").is_none());
    assert!(split3_dots("aa.bb.cc.dd").is_none());
    assert!(split3_dots("").is_none());
}
