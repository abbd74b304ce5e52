//! The assembled bot API core: the configuration, the published
//! application token, and one backend handle per conversation service.

use vstd::prelude::*;

use crate::abc::AbcWebChat;
use crate::config::{BotApiConfig, DirectLineConfig};
use crate::directline::ConversationTokenV;
use crate::token_cell::TokenCell;

verus! {

/// Client state for the DirectLine API: the configuration, the
/// application token cell filled by the identity refresher, and the two
/// backend variants with their session stores.
#[derive(Debug)]
pub struct BotApi {
    pub config: BotApiConfig,
    pub access_token: TokenCell,
    pub directline: AbcWebChat,
    pub webchat: AbcWebChat,
}

impl BotApi {
    /// Internal invariant: both backends are well formed.
    pub open spec fn wf(&self) -> bool {
        self.directline.wf() && self.webchat.wf()
    }

    /// A fresh core: no application token published yet, no sessions on
    /// either backend, each backend carrying its own secret and address
    /// from the configuration.
    pub fn new(config: BotApiConfig) -> (b: BotApi)
        ensures
            b.wf(),
            b.config == config,
            b.access_token@ is None,
            b.directline.conversations@ =~= Map::<Seq<char>, ConversationTokenV>::empty(),
            b.webchat.conversations@ =~= Map::<Seq<char>, ConversationTokenV>::empty(),
            b.directline.config.secret@ == config.directline.secret@,
            b.directline.config.base_url@ == config.directline.base_url@,
            b.webchat.config.secret@ == config.webchat.secret@,
            b.webchat.config.base_url@ == config.webchat.token_url@,
    {
        let directline = AbcWebChat::new(
            DirectLineConfig {
                secret: config.directline.secret.clone(),
                base_url: config.directline.base_url.clone(),
            },
        );
        let webchat = AbcWebChat::new(
            DirectLineConfig {
                secret: config.webchat.secret.clone(),
                base_url: config.webchat.token_url.clone(),
            },
        );
        BotApi { config, access_token: TokenCell::new(), directline, webchat }
    }
}

} // verus!
