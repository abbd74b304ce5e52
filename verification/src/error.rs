//! Error taxonomy of the credential and session core.
//!
//! Four families of failure are kept apart so that callers can react
//! differently to each: fatal configuration problems (discovery), transient
//! network or auth failures during a refresh cycle, a lookup of a
//! conversation that has no session, and an upstream rejection that is
//! surfaced with its status and body.

use vstd::prelude::*;

verus! {

/// Error type for the credential and session operations.
#[derive(Debug, Clone, PartialEq, Eq)]
pub enum MyError {
    /// General error with a fixed description.
    Message(String),
    /// The service was cancelled.
    Cancelled,
    /// A token exchange response was missing a field or malformed.
    RequestTokenError(String),
    /// Discovery of the identity provider's endpoints failed; fatal.
    DiscoveryError(String),
    /// An operation addressed a conversation identifier with no session.
    ConversationNotFound(String),
    /// The conversation relay answered with a non-success status.
    UpstreamRejection(u16, String),
    /// A base64 payload could not be decoded.
    DecoderError(String),
    /// Decoded bytes were not valid text.
    UtfError(String),
    /// A response body from the relay was missing a field or malformed.
    MalformedResponse(String),
    /// A numeric field could not be parsed.
    ParseIntError(String),
    /// An endpoint address could not be parsed or joined.
    ParseError(String),
}

impl MyError {
    /// True exactly when the error is the distinct "no session for this
    /// conversation" condition, which callers must be able to tell apart
    /// from transient network failures.
    pub fn is_conversation_not_found(&self) -> (r: bool)
        ensures
            r == (self is ConversationNotFound),
    {
        match self {
            MyError::ConversationNotFound(_) => true,
            _ => false,
        }
    }
}

} // verus!
