//! One conversation backend: its static credentials and its session store.
//!
//! The bridge talks to two backends of the same shape — the DirectLine
//! relay and the WebChat token issuer — so the process holds two instances
//! of this type.  The HTTP client that carries the requests lives outside
//! the library.

use vstd::prelude::*;

use crate::config::DirectLineConfig;
use crate::directline::ConversationTokenV;
use crate::store::SessionStore;

verus! {

/// A conversation backend: the service secret, the base address of its
/// REST surface, and the sessions created against it.
#[derive(Debug)]
pub struct AbcWebChat {
    pub config: DirectLineConfig,
    pub conversations: SessionStore,
}

impl AbcWebChat {
    /// Internal invariant: the session store is well formed.
    pub open spec fn wf(&self) -> bool {
        self.conversations.wf()
    }

    /// A backend handle with no sessions yet.
    pub fn new(config: DirectLineConfig) -> (s: AbcWebChat)
        ensures
            s.wf(),
            s.config == config,
            s.conversations@ =~= Map::<Seq<char>, ConversationTokenV>::empty(),
    {
        AbcWebChat { config, conversations: SessionStore::new() }
    }

    /// The service secret used by the create-class operations.
    pub fn get_secret(&self) -> (r: &str)
        ensures
            r@ == self.config.secret@,
    {
        self.config.secret.as_str()
    }

    /// The base address of the backend's REST surface.
    pub fn get_base_url(&self) -> (r: &str)
        ensures
            r@ == self.config.base_url@,
    {
        self.config.base_url.as_str()
    }

    /// The sessions created against this backend.
    pub fn get_conversations(&self) -> (r: &SessionStore)
        ensures
            r == &self.conversations,
    {
        &self.conversations
    }
}

} // verus!
