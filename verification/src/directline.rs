//! Data model of the DirectLine conversation relay.
//!
//! A `ConversationToken` is the relay's answer to every create / refresh /
//! reconnect operation: the conversation identifier, the bearer token scoped
//! to that conversation, an expiry hint in seconds, and the relay stream
//! metadata.  The activity types mirror the wire shapes of the chat events
//! that pass through the relay; endpoint addresses are carried as plain
//! strings.

use vstd::prelude::*;

verus! {

/// Mathematical value of a [`ConversationToken`]: every field as the
/// sequence of characters or integer it denotes.
pub ghost struct ConversationTokenV {
    pub conversation_id: Seq<char>,
    pub token: Seq<char>,
    pub expires_in: int,
    pub stream_url: Seq<char>,
    pub reference_grammar_id: Seq<char>,
}

/// A conversation-scoped grant returned by the relay: the identifier the
/// relay assigned, the bearer token valid for that conversation only, the
/// lifetime hint in seconds, and the relay stream metadata.
#[derive(Debug, Clone)]
pub struct ConversationToken {
    pub conversation_id: String,
    pub token: String,
    pub expires_in: i64,
    pub stream_url: String,
    pub reference_grammar_id: String,
}

impl ConversationToken {
    /// A field-by-field copy; the store hands these out so that callers
    /// only ever hold copies of a session.
    pub fn duplicate(&self) -> (r: ConversationToken)
        ensures
            r == *self,
    {
        ConversationToken {
            conversation_id: self.conversation_id.clone(),
            token: self.token.clone(),
            expires_in: self.expires_in,
            stream_url: self.stream_url.clone(),
            reference_grammar_id: self.reference_grammar_id.clone(),
        }
    }
}

impl View for ConversationToken {
    type V = ConversationTokenV;

    open spec fn view(&self) -> ConversationTokenV {
        ConversationTokenV {
            conversation_id: self.conversation_id@,
            token: self.token@,
            expires_in: self.expires_in as int,
            stream_url: self.stream_url@,
            reference_grammar_id: self.reference_grammar_id@,
        }
    }
}

/// A party to a conversation.
#[derive(Debug, Clone)]
pub struct Recipient {
    pub id: String,
    pub name: Option<String>,
    pub role: Option<String>,
}

/// The conversation a chat event belongs to.
#[derive(Debug, Clone)]
pub struct Conversation {
    pub id: String,
    pub name: Option<String>,
}

/// A chat user.
#[derive(Debug, Clone)]
pub struct User {
    pub id: String,
    pub name: String,
}

/// An attachment carried by an activity; the relay treats its content as
/// opaque.
#[derive(Debug, Clone)]
pub struct Attachment {}

/// A capability entity advertised inside an activity.
#[derive(Debug, Clone)]
pub struct Entity {
    pub entity_type: String,
    pub requires_bot_state: Option<bool>,
    pub supports_listening: Option<bool>,
    pub supports_tts: Option<bool>,
}

/// Channel-specific metadata of an activity.
#[derive(Debug, Clone)]
pub struct ChannelData {
    pub client_activity_id: String,
    pub client_timestamp: Option<String>,
}

/// A membership change event in a conversation.
#[derive(Debug, Clone)]
pub struct ConversationUpdate {
    pub id: String,
    pub timestamp: String,
    pub service_url: Option<String>,
    pub channel_id: String,
    pub from: Recipient,
    pub conversation: Conversation,
    pub recipient: Recipient,
    pub members_added: Vec<Recipient>,
}

/// A chat message event.
#[derive(Debug, Clone)]
pub struct Message {
    pub service_url: Option<String>,
    pub channel_id: String,
    pub from: Recipient,
    pub conversation: Conversation,
    pub recipient: Recipient,
    pub locale: Option<String>,
    pub text: String,
    pub text_format: Option<String>,
    pub input_hint: Option<String>,
    pub id: String,
    pub local_timestamp: Option<String>,
    pub local_timezone: Option<String>,
    pub timestamp: String,
    pub channel_data: Option<ChannelData>,
    pub entities: Option<Vec<Entity>>,
    pub reply_to_id: Option<String>,
}

/// A generic activity as the bot framework defines it.
#[derive(Debug, Clone)]
pub struct Activity {
    pub text: String,
    pub from: Recipient,
    pub recipient: Recipient,
    pub conversation: Conversation,
    pub service_url: Option<String>,
    pub channel_id: Option<String>,
    pub timestamp: Option<String>,
    pub id: Option<String>,
    pub local_timestamp: Option<String>,
    pub local_timezone: Option<String>,
    pub text_format: Option<String>,
    pub locale: Option<String>,
    pub attachments: Option<Vec<Attachment>>,
    pub entities: Option<Vec<Entity>>,
    pub channel_data: Option<ChannelData>,
    pub reply_to_id: Option<String>,
}

/// An inbound chat event: either a membership update or a message.
#[derive(Debug)]
pub enum BotActivity {
    ConversationUpdate(ConversationUpdate),
    Message(Message),
}

impl BotActivity {
    /// The identifier of the conversation this activity belongs to,
    /// whichever variant carries it.
    pub fn conversation_id(&self) -> (r: &str)
        ensures
            r@ == (match self {
                BotActivity::ConversationUpdate(activity) => activity.conversation.id@,
                BotActivity::Message(activity) => activity.conversation.id@,
            }),
    {
        match self {
            BotActivity::ConversationUpdate(activity) => activity.conversation.id.as_str(),
            BotActivity::Message(activity) => activity.conversation.id.as_str(),
        }
    }
}

} // verus!
