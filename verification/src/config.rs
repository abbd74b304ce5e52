//! Static configuration consumed by the credential and session core.
//!
//! Only the values matter here: endpoint addresses are plain strings and
//! intervals are whole seconds.  Loading, parsing and validation of the
//! configuration file stay outside the library.

use vstd::prelude::*;

verus! {

/// Configuration of the WebChat token refresher: the static secret and the
/// fixed endpoint the short-lived token is fetched from.
#[derive(Debug, Clone)]
pub struct WebChatConfig {
    pub secret: String,
    pub token_url: String,
}

/// Configuration of a DirectLine backend: the service secret and the base
/// address of the relay's REST surface.
#[derive(Debug, Clone)]
pub struct DirectLineConfig {
    pub secret: String,
    pub base_url: String,
}

/// Configuration of the bot API core: the identity provider, the service
/// identity, both conversation backends, and the refresh scheduling
/// intervals in seconds.
#[derive(Debug, Clone)]
pub struct BotApiConfig {
    pub auth_endpoint: String,
    pub bot_endpoint: String,
    pub tenant_id: String,
    pub scope: String,
    pub id: String,
    pub secret: String,
    pub webchat: WebChatConfig,
    pub directline: DirectLineConfig,
    /// Seconds slept after a failed refresh attempt before retrying.
    pub auth_fail_sleep: u64,
    /// Safety margin in seconds subtracted from a token's lifetime before
    /// scheduling its refresh.
    pub auth_margin: u64,
}

impl Default for BotApiConfig {
    /// Placeholder endpoints and the fixed sixty-second intervals.
    fn default() -> (c: BotApiConfig)
        ensures
            c.auth_endpoint@ == "https://localhost"@,
            c.bot_endpoint@ == "https://localhost"@,
            c.tenant_id@ == Seq::<char>::empty(),
            c.scope@ == Seq::<char>::empty(),
            c.id@ == Seq::<char>::empty(),
            c.secret@ == Seq::<char>::empty(),
            c.webchat.secret@ == Seq::<char>::empty(),
            c.webchat.token_url@ == "https://localhost"@,
            c.directline.secret@ == Seq::<char>::empty(),
            c.directline.base_url@ == "https://localhost"@,
            c.auth_fail_sleep == 60,
            c.auth_margin == 60,
    {
        BotApiConfig {
            auth_endpoint: "https://localhost".to_owned(),
            bot_endpoint: "https://localhost".to_owned(),
            tenant_id: String::new(),
            scope: String::new(),
            id: String::new(),
            secret: String::new(),
            webchat: WebChatConfig {
                secret: String::new(),
                token_url: "https://localhost".to_owned(),
            },
            directline: DirectLineConfig {
                secret: String::new(),
                base_url: "https://localhost".to_owned(),
            },
            auth_fail_sleep: 60,
            auth_margin: 60,
        }
    }
}

/// Configuration of the web service around the core: kept here so that the
/// process hands the core plain values only.
#[derive(Debug, Clone)]
pub struct WebServiceConfig {
    /// Prefix of the served API.
    pub prefix: String,
    /// Address to start the webservice on.
    pub address: String,
    pub forwarding_headers: Vec<String>,
}

impl Default for WebServiceConfig {
    fn default() -> (c: WebServiceConfig)
        ensures
            c.prefix@ == "api"@,
            c.address@ == "127.0.0.1:1234"@,
            c.forwarding_headers@.len() == 0,
    {
        WebServiceConfig {
            prefix: "api".to_owned(),
            address: "127.0.0.1:1234".to_owned(),
            forwarding_headers: Vec::new(),
        }
    }
}

} // verus!
