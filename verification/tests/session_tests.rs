//! Scenario tests of the session store, the DirectLine operation halves,
//! the activity framing, and the data-model helpers.

use polecatteamsbot::abc::AbcWebChat;
use polecatteamsbot::botapi::BotApi;
use polecatteamsbot::config::{BotApiConfig, DirectLineConfig, WebServiceConfig};
use polecatteamsbot::directline::{BotActivity, Conversation, ConversationToken, Message, Recipient};
use polecatteamsbot::dl_apis::{
    apply_conversation_response, apply_reconnect_response, prepare_create_conversation,
    prepare_create_token, prepare_receive_activity, prepare_reconnect_conversation,
    prepare_refresh_token, prepare_send_activity, HttpMethod,
};
use polecatteamsbot::error::MyError;
use polecatteamsbot::lists::PageOptions;
use polecatteamsbot::store::SessionStore;
use polecatteamsbot::tokio_tools::ThreadRuntime;
use polecatteamsbot::webserver::rejection_status;
use polecatteamsbot::wire::send_activity_body;

fn service() -> AbcWebChat {
    AbcWebChat::new(DirectLineConfig {
        secret: "service-secret".to_string(),
        base_url: "https://directline.example.com/".to_string(),
    })
}

fn grant(id: &str, token: &str) -> String {
    format!(
        r#"{{"conversationId":"{}","token":"{}","expires_in":1800,"streamUrl":"wss://stream.example.com/{}","referenceGrammarId":"grammar-1"}}"#,
        id, token, id
    )
}

#[test]
fn create_conversation_stores_session_and_send_uses_its_token() {
    let mut svc = service();
    let body = grant("abc123", "conv-token-1");
    let t = apply_conversation_response(&mut svc, &body).expect("well-formed grant");
    assert_eq!(t.conversation_id, "abc123");
    assert_eq!(t.token, "conv-token-1");
    assert_eq!(t.expires_in, 1800);
    assert_eq!(t.stream_url, "wss://stream.example.com/abc123");
    assert_eq!(t.reference_grammar_id, "grammar-1");

    let stored = svc.get_conversations().get("abc123").expect("session stored");
    assert_eq!(stored.token, "conv-token-1");

    let req = prepare_send_activity(&svc, "abc123", "{}".to_string()).expect("session exists");
    assert_eq!(req.method, HttpMethod::Post);
    assert_eq!(req.auth, "conv-token-1", "authenticated with the session's own token");
    assert_eq!(
        req.url,
        "https://directline.example.com/v3/directline/conversations/abc123/activities"
    );
    assert_eq!(req.body.as_deref(), Some("{}"));
}

#[test]
fn send_and_receive_without_session_fail_distinctly() {
    let svc = service();
    let err = prepare_send_activity(&svc, "missing", "{}".to_string()).expect_err("no session");
    assert!(err.is_conversation_not_found());
    assert!(matches!(err, MyError::ConversationNotFound(ref id) if id == "missing"));

    let err = prepare_receive_activity(&svc, "missing").expect_err("no session");
    assert!(err.is_conversation_not_found());

    let err = prepare_refresh_token(&svc, "missing").expect_err("no session");
    assert!(err.is_conversation_not_found());
}

#[test]
fn refresh_replaces_token_in_place() {
    let mut svc = service();
    apply_conversation_response(&mut svc, &grant("abc123", "expired-token")).expect("created");
    assert_eq!(svc.get_conversations().get("abc123").unwrap().token, "expired-token");

    let req = prepare_refresh_token(&svc, "abc123").expect("session exists");
    assert_eq!(req.method, HttpMethod::Post);
    assert_eq!(req.auth, "expired-token", "refresh authenticates with the existing token");
    assert_eq!(req.url, "https://directline.example.com/v3/directline/tokens/refresh");

    apply_conversation_response(&mut svc, &grant("abc123", "fresh-token")).expect("refreshed");
    let stored = svc.get_conversations().get("abc123").expect("still one session");
    assert_eq!(stored.conversation_id, "abc123", "identifier unchanged");
    assert_eq!(stored.token, "fresh-token", "old token no longer returned");
}

#[test]
fn last_completed_write_wins_per_identifier() {
    let mut store = SessionStore::new();
    let mk = |tok: &str| ConversationToken {
        conversation_id: "conv-1".to_string(),
        token: tok.to_string(),
        expires_in: 60,
        stream_url: String::new(),
        reference_grammar_id: String::new(),
    };
    store.upsert("conv-1".to_string(), mk("first"));
    store.upsert("other".to_string(), ConversationToken {
        conversation_id: "other".to_string(),
        token: "other-token".to_string(),
        expires_in: 60,
        stream_url: String::new(),
        reference_grammar_id: String::new(),
    });
    store.upsert("conv-1".to_string(), mk("second"));
    assert_eq!(store.get("conv-1").unwrap().token, "second");
    assert_eq!(store.get("other").unwrap().token, "other-token", "other keys untouched");
    assert!(store.get("absent").is_none());
    assert!(store.contains("conv-1"));
    assert!(!store.contains("absent"));
}

#[test]
fn create_class_requests_use_service_secret() {
    let svc = service();
    let req = prepare_create_conversation(&svc).expect("base url joins");
    assert_eq!(req.method, HttpMethod::Post);
    assert_eq!(req.auth, "service-secret");
    assert_eq!(req.url, "https://directline.example.com/v3/directline/conversations");
    assert!(req.body.is_none());

    let req = prepare_create_token(&svc).expect("base url joins");
    assert_eq!(req.url, "https://directline.example.com/v3/directline/tokens/generate");

    let req = prepare_reconnect_conversation(&svc, "abc123").expect("base url joins");
    assert_eq!(req.method, HttpMethod::Get);
    assert_eq!(req.auth, "service-secret");
    assert_eq!(req.url, "https://directline.example.com/v3/directline/conversations/abc123");
}

#[test]
fn invalid_base_url_is_a_parse_error() {
    let svc = AbcWebChat::new(DirectLineConfig {
        secret: "s".to_string(),
        base_url: "not a url".to_string(),
    });
    let err = prepare_create_conversation(&svc).expect_err("base does not parse");
    assert!(matches!(err, MyError::ParseError(_)));
}

#[test]
fn reconnect_stores_under_requested_identifier() {
    let mut svc = service();
    let t = apply_reconnect_response(&mut svc, "abc123", &grant("abc123", "re-token"))
        .expect("well-formed grant");
    assert_eq!(t.token, "re-token");
    assert_eq!(svc.get_conversations().get("abc123").unwrap().token, "re-token");
}

#[test]
fn malformed_grant_changes_nothing() {
    let mut svc = service();
    apply_conversation_response(&mut svc, &grant("abc123", "tok")).expect("created");
    let err = apply_conversation_response(&mut svc, r#"{"conversationId":"zzz"}"#)
        .expect_err("missing fields");
    assert!(matches!(err, MyError::MalformedResponse(_)));
    assert!(svc.get_conversations().get("zzz").is_none(), "nothing stored");
    assert_eq!(svc.get_conversations().get("abc123").unwrap().token, "tok", "store unchanged");
}

#[test]
fn activity_body_round_trips_conversation_id() {
    let body = send_activity_body("bot-1", "abc123", "Hello, world!").expect("plain values");
    let v: serde_json::Value = serde_json::from_str(&body).expect("frame is valid JSON");
    assert_eq!(v["type"].as_str(), Some("message"));
    assert_eq!(v["from"]["id"].as_str(), Some("bot-1"));
    assert_eq!(v["conversation"]["id"].as_str(), Some("abc123"));
    assert_eq!(v["text"].as_str(), Some("Hello, world!"));

    let err = send_activity_body("bot-1", "abc123", "say \"hi\"").expect_err("needs escaping");
    assert!(matches!(err, MyError::Message(_)));
}

#[test]
fn bot_activity_names_its_conversation() {
    let message = Message {
        service_url: None,
        channel_id: "webchat".to_string(),
        from: Recipient { id: "user-1".to_string(), name: None, role: None },
        conversation: Conversation { id: "abc123".to_string(), name: None },
        recipient: Recipient { id: "bot-1".to_string(), name: None, role: None },
        locale: None,
        text: "hi".to_string(),
        text_format: None,
        input_hint: None,
        id: "m-1".to_string(),
        local_timestamp: None,
        local_timezone: None,
        timestamp: "2024-01-01T00:00:00Z".to_string(),
        channel_data: None,
        entities: None,
        reply_to_id: None,
    };
    let activity = BotActivity::Message(message);
    assert_eq!(activity.conversation_id(), "abc123");
}

#[test]
fn bot_api_starts_empty() {
    let api = BotApi::new(BotApiConfig::default());
    assert!(api.access_token.read().is_none(), "explicit absent state before first acquisition");
    assert!(api.directline.get_conversations().get("any").is_none());
    assert_eq!(api.directline.get_base_url(), "https://localhost");
    assert_eq!(api.webchat.get_base_url(), "https://localhost");
}

#[test]
fn config_defaults() {
    let c = BotApiConfig::default();
    assert_eq!(c.auth_fail_sleep, 60);
    assert_eq!(c.auth_margin, 60);
    assert_eq!(c.auth_endpoint, "https://localhost");
    let w = WebServiceConfig::default();
    assert_eq!(w.prefix, "api");
    assert_eq!(w.address, "127.0.0.1:1234");
    let rt = ThreadRuntime::default();
    assert_eq!(rt.threads, 0);
    assert_eq!(rt.stack_size, 3_000_000);
}

#[test]
fn page_options_defaulting_fills_absent_fields() {
    let filled = PageOptions::defaulting(PageOptions { page: None, size: None, sort: None });
    assert_eq!(filled.page, Some(0));
    assert_eq!(filled.size, Some(5));
    assert_eq!(filled.sort, None);

    let kept = PageOptions::defaulting(PageOptions { page: Some(7), size: Some(50), sort: Some(2) });
    assert_eq!(kept.page, Some(7));
    assert_eq!(kept.size, Some(50));
    assert_eq!(kept.sort, Some(2));
}

#[test]
fn rejection_statuses_are_distinct_where_it_matters() {
    assert_eq!(rejection_status(&MyError::ConversationNotFound("x".to_string())), 404);
    assert_eq!(rejection_status(&MyError::UpstreamRejection(401, "denied".to_string())), 401);
    assert_eq!(rejection_status(&MyError::Message("m".to_string())), 418);
    assert_eq!(rejection_status(&MyError::Cancelled), 503);
    assert_eq!(rejection_status(&MyError::DiscoveryError("d".to_string())), 500);
    assert_eq!(rejection_status(&MyError::MalformedResponse("b".to_string())), 502);
}
