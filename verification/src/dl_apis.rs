//! The six DirectLine client operations, split at the network edge.
//!
//! Each operation is two verified halves around one HTTP exchange: a
//! `prepare_*` function that chooses the address, the method, the
//! authentication and the body of the request, and an `apply_*` function
//! that reads the response body and updates the session store.  The
//! create-class operations authenticate with the static service secret
//! because no session exists yet; the use-class operations authenticate
//! with the addressed conversation's own stored token, and fail with the
//! distinct not-found condition — before anything could touch the network —
//! when no session exists for the identifier.

use vstd::prelude::*;

use crate::abc::AbcWebChat;
use crate::directline::ConversationToken;
use crate::error::MyError;
use crate::wire::{conversation_response_ok, conversation_response_view, parse_conversation_token};

verus! {

/// Marker for the DirectLine operation set.
pub struct DlApisImpl;

/// The address a relative path resolves to against a base address, if the
/// base parses and the resolution succeeds.
pub uninterp spec fn url_join_of(base: Seq<char>, rel: Seq<char>) -> Option<Seq<char>>;

/// Relies on url::Url::parse and url::Url::join: resolving a relative
/// reference against a base address is a function of the two strings
/// alone.
#[verifier::external_body]
pub(crate) fn url_join(base: &str, rel: &str) -> (r: Option<String>)
    ensures
        r is Some <==> url_join_of(base@, rel@) is Some,
        r matches Some(s) ==> url_join_of(base@, rel@) == Some(s@),
{
    let b = match url::Url::parse(base) {
        Ok(b) => b,
        Err(_) => return None,
    };
    match b.join(rel) {
        Ok(u) => Some(u.as_str().to_string()),
        Err(_) => None,
    }
}

/// HTTP method of a prepared request.
#[derive(Debug, PartialEq, Eq)]
pub enum HttpMethod {
    Get,
    Post,
}

/// Everything the transport needs to perform one relay operation: the
/// resolved address, the method, the bearer credential for the
/// authorization header, and the body, if any.
#[derive(Debug)]
pub struct PreparedRequest {
    pub method: HttpMethod,
    pub url: String,
    pub auth: String,
    pub body: Option<String>,
}

/// The relative path of the conversation-creation endpoint.
pub fn conversations_path() -> (r: String)
    ensures
        r@ == "v3/directline/conversations"@,
{
    "v3/directline/conversations".to_owned()
}

/// The relative path of the token-minting endpoint.
pub fn tokens_generate_path() -> (r: String)
    ensures
        r@ == "v3/directline/tokens/generate"@,
{
    "v3/directline/tokens/generate".to_owned()
}

/// The relative path of the token-refresh endpoint.
pub fn tokens_refresh_path() -> (r: String)
    ensures
        r@ == "v3/directline/tokens/refresh"@,
{
    "v3/directline/tokens/refresh".to_owned()
}

/// The relative path that reconnects to the given conversation.
pub fn reconnect_path(conversation_id: &str) -> (r: String)
    ensures
        r@ == "v3/directline/conversations/"@ + conversation_id@,
{
    let mut s = "v3/directline/conversations/".to_owned();
    s.append(conversation_id);
    s
}

/// The relative path of the given conversation's activities.
pub fn activities_path(conversation_id: &str) -> (r: String)
    ensures
        r@ == "v3/directline/conversations/"@ + conversation_id@ + "/activities"@,
{
    let mut s = "v3/directline/conversations/".to_owned();
    s.append(conversation_id);
    s.append("/activities");
    s
}

/// A create-class request: `method` against `rel` resolved on the service
/// base address, authenticated with the service secret, with no body.
pub open spec fn service_request_ok(
    service: AbcWebChat,
    rel: Seq<char>,
    method: HttpMethod,
    r: Result<PreparedRequest, MyError>,
) -> bool {
    match url_join_of(service.config.base_url@, rel) {
        Some(u) => {
            &&& r matches Ok(p)
            &&& p.method == method
            &&& p.url@ == u
            &&& p.auth@ == service.config.secret@
            &&& p.body is None
        },
        None => r matches Err(e) && e is ParseError,
    }
}

fn prepare_service_post(service: &AbcWebChat, rel: String) -> (r: Result<PreparedRequest, MyError>)
    ensures
        service_request_ok(*service, rel@, HttpMethod::Post, r),
{
    match url_join(service.get_base_url(), rel.as_str()) {
        Some(u) => Ok(
            PreparedRequest {
                method: HttpMethod::Post,
                url: u,
                auth: service.config.secret.clone(),
                body: None,
            },
        ),
        None => Err(MyError::ParseError("cannot join base url".to_owned())),
    }
}

/// Prepares `create_conversation`: POST to the conversations endpoint,
/// authenticated with the service secret.
pub fn prepare_create_conversation(service: &AbcWebChat) -> (r: Result<PreparedRequest, MyError>)
    ensures
        service_request_ok(*service, "v3/directline/conversations"@, HttpMethod::Post, r),
{
    prepare_service_post(service, conversations_path())
}

/// Prepares `create_token`: POST to the token-minting endpoint,
/// authenticated with the service secret.
pub fn prepare_create_token(service: &AbcWebChat) -> (r: Result<PreparedRequest, MyError>)
    ensures
        service_request_ok(*service, "v3/directline/tokens/generate"@, HttpMethod::Post, r),
{
    prepare_service_post(service, tokens_generate_path())
}

/// Prepares `reconnect_conversation`: GET of the conversation resource,
/// authenticated with the service secret.
pub fn prepare_reconnect_conversation(service: &AbcWebChat, conversation_id: &str) -> (r: Result<
    PreparedRequest,
    MyError,
>)
    ensures
        service_request_ok(
            *service,
            "v3/directline/conversations/"@ + conversation_id@,
            HttpMethod::Get,
            r,
        ),
{
    let rel = reconnect_path(conversation_id);
    match url_join(service.get_base_url(), rel.as_str()) {
        Some(u) => Ok(
            PreparedRequest {
                method: HttpMethod::Get,
                url: u,
                auth: service.config.secret.clone(),
                body: None,
            },
        ),
        None => Err(MyError::ParseError("cannot join base url".to_owned())),
    }
}

/// A use-class request for `conversation_id`: fails with the distinct
/// not-found condition when the identifier has no session — decided from
/// the store alone, before anything could touch the network — and
/// otherwise authenticates with that session's own stored token.
pub open spec fn session_request_ok(
    service: AbcWebChat,
    conversation_id: Seq<char>,
    rel: Seq<char>,
    method: HttpMethod,
    body: Option<Seq<char>>,
    r: Result<PreparedRequest, MyError>,
) -> bool {
    if !service.conversations@.contains_key(conversation_id) {
        r matches Err(e) && e is ConversationNotFound
    } else {
        match url_join_of(service.config.base_url@, rel) {
            Some(u) => {
                &&& r matches Ok(p)
                &&& p.method == method
                &&& p.url@ == u
                &&& p.auth@ == service.conversations@[conversation_id].token
                &&& match (p.body, body) {
                    (Some(pb), Some(b)) => pb@ == b,
                    (None, None) => true,
                    _ => false,
                }
            },
            None => r matches Err(e) && e is ParseError,
        }
    }
}

/// Prepares `refresh_token` for an existing conversation: POST to the
/// token-refresh endpoint, authenticated with the session's own token, not
/// the service secret.
pub fn prepare_refresh_token(service: &AbcWebChat, conversation_id: &str) -> (r: Result<
    PreparedRequest,
    MyError,
>)
    requires
        service.wf(),
    ensures
        session_request_ok(
            *service,
            conversation_id@,
            "v3/directline/tokens/refresh"@,
            HttpMethod::Post,
            None,
            r,
        ),
{
    let session = match service.conversations.get(conversation_id) {
        Some(s) => s,
        None => {
            return Err(MyError::ConversationNotFound(conversation_id.to_owned()));
        },
    };
    let rel = tokens_refresh_path();
    match url_join(service.get_base_url(), rel.as_str()) {
        Some(u) => Ok(
            PreparedRequest { method: HttpMethod::Post, url: u, auth: session.token, body: None },
        ),
        None => Err(MyError::ParseError("cannot join base url".to_owned())),
    }
}

/// Prepares `send_activity`: POST of the activity body to the
/// conversation's activities endpoint, authenticated with the session's
/// stored token.
pub fn prepare_send_activity(
    service: &AbcWebChat,
    conversation_id: &str,
    activity: String,
) -> (r: Result<PreparedRequest, MyError>)
    requires
        service.wf(),
    ensures
        session_request_ok(
            *service,
            conversation_id@,
            "v3/directline/conversations/"@ + conversation_id@ + "/activities"@,
            HttpMethod::Post,
            Some(activity@),
            r,
        ),
{
    let session = match service.conversations.get(conversation_id) {
        Some(s) => s,
        None => {
            return Err(MyError::ConversationNotFound(conversation_id.to_owned()));
        },
    };
    let rel = activities_path(conversation_id);
    match url_join(service.get_base_url(), rel.as_str()) {
        Some(u) => Ok(
            PreparedRequest {
                method: HttpMethod::Post,
                url: u,
                auth: session.token,
                body: Some(activity),
            },
        ),
        None => Err(MyError::ParseError("cannot join base url".to_owned())),
    }
}

/// Prepares `receive_activity`: GET of the conversation's activities,
/// authenticated with the session's stored token.
pub fn prepare_receive_activity(service: &AbcWebChat, conversation_id: &str) -> (r: Result<
    PreparedRequest,
    MyError,
>)
    requires
        service.wf(),
    ensures
        session_request_ok(
            *service,
            conversation_id@,
            "v3/directline/conversations/"@ + conversation_id@ + "/activities"@,
            HttpMethod::Get,
            None,
            r,
        ),
{
    let session = match service.conversations.get(conversation_id) {
        Some(s) => s,
        None => {
            return Err(MyError::ConversationNotFound(conversation_id.to_owned()));
        },
    };
    let rel = activities_path(conversation_id);
    match url_join(service.get_base_url(), rel.as_str()) {
        Some(u) => Ok(
            PreparedRequest { method: HttpMethod::Get, url: u, auth: session.token, body: None },
        ),
        None => Err(MyError::ParseError("cannot join base url".to_owned())),
    }
}

/// Applies the response of `create_conversation`, `create_token` or
/// `refresh_token`: reads the conversation grant and stores it wholesale
/// under the identifier the relay assigned.  On a malformed body nothing
/// is stored and every existing session stays readable.
pub fn apply_conversation_response(service: &mut AbcWebChat, body: &str) -> (r: Result<
    ConversationToken,
    MyError,
>)
    requires
        old(service).wf(),
    ensures
        final(service).wf(),
        final(service).config == old(service).config,
        r is Ok <==> conversation_response_ok(body@),
        r matches Ok(t) ==> {
            &&& t@ == conversation_response_view(body@)
            &&& final(service).conversations@ =~= old(service).conversations@.insert(
                t.conversation_id@,
                t@,
            )
        },
        r matches Err(e) ==> e is MalformedResponse && final(service).conversations@ == old(
            service,
        ).conversations@,
{
    let t = match parse_conversation_token(body) {
        Ok(t) => t,
        Err(e) => {
            return Err(e);
        },
    };
    let ret = t.duplicate();
    let key = t.conversation_id.clone();
    service.conversations.upsert(key, t);
    Ok(ret)
}

/// Applies the response of `reconnect_conversation`: reads the grant and
/// stores it wholesale under the identifier that was reconnected.
pub fn apply_reconnect_response(
    service: &mut AbcWebChat,
    conversation_id: &str,
    body: &str,
) -> (r: Result<ConversationToken, MyError>)
    requires
        old(service).wf(),
    ensures
        final(service).wf(),
        final(service).config == old(service).config,
        r is Ok <==> conversation_response_ok(body@),
        r matches Ok(t) ==> {
            &&& t@ == conversation_response_view(body@)
            &&& final(service).conversations@ =~= old(service).conversations@.insert(
                conversation_id@,
                t@,
            )
        },
        r matches Err(e) ==> e is MalformedResponse && final(service).conversations@ == old(
            service,
        ).conversations@,
{
    let t = match parse_conversation_token(body) {
        Ok(t) => t,
        Err(e) => {
            return Err(e);
        },
    };
    let ret = t.duplicate();
    service.conversations.upsert(conversation_id.to_owned(), t);
    Ok(ret)
}

} // verus!
