//! The boundary policy of the web layer: which HTTP status each core
//! error maps to.  Serving routes and encoding replies happen outside the
//! library; this mapping is the decision the boundary applies.

use vstd::prelude::*;

use crate::error::MyError;

verus! {

/// The HTTP status a core error surfaces as.  The absence of a session
/// for a requested conversation is a distinct client error, never a
/// generic server error; an upstream rejection passes its own status
/// through; internal failures of the credential machinery are server
/// errors.
pub fn rejection_status(err: &MyError) -> (r: u16)
    ensures
        r == (match *err {
            MyError::Message(_) => 418u16,
            MyError::Cancelled => 503u16,
            MyError::ConversationNotFound(_) => 404u16,
            MyError::UpstreamRejection(status, _) => status,
            MyError::RequestTokenError(_) => 500u16,
            MyError::DiscoveryError(_) => 500u16,
            MyError::DecoderError(_) => 500u16,
            MyError::UtfError(_) => 500u16,
            MyError::MalformedResponse(_) => 502u16,
            MyError::ParseIntError(_) => 500u16,
            MyError::ParseError(_) => 500u16,
        }),
{
    match err {
        MyError::Message(_) => 418,
        MyError::Cancelled => 503,
        MyError::ConversationNotFound(_) => 404,
        MyError::UpstreamRejection(status, _) => *status,
        MyError::RequestTokenError(_) => 500,
        MyError::DiscoveryError(_) => 500,
        MyError::DecoderError(_) => 500,
        MyError::UtfError(_) => 500,
        MyError::MalformedResponse(_) => 502,
        MyError::ParseIntError(_) => 500,
        MyError::ParseError(_) => 500,
    }
}

} // verus!
