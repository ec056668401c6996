//! Chats, messages and the events that flow over the event bus.

use vstd::prelude::*;
use crate::gateway::{reply_outcome, ClientError};

verus! {

/// A conversation as the gateway reports it.
#[derive(Debug, Clone, PartialEq)]
pub struct Chat {
    pub id: String,
    pub name: String,
    pub is_group: bool,
    pub unread_count: u32,
    pub archived: bool,
    /// Last activity, in seconds since the epoch.
    pub timestamp: i64,
    pub last_message: Option<String>,
}

/// One message of a chat.
#[derive(Debug, Clone, PartialEq)]
pub struct Message {
    pub id: String,
    pub chat_id: String,
    pub body: String,
    /// Seconds since the epoch.
    pub timestamp: i64,
    pub from_me: bool,
    pub has_media: bool,
    pub media_type: Option<String>,
    pub sender: Option<String>,
}

/// Events carried by the event bus: those the gateway sends, and those that
/// background requests post when they complete.
#[derive(Debug, Clone)]
pub enum WhatsAppEvent {
    QRCode(String),
    Ready,
    Authenticated,
    MessageReceived(Message),
    ChatUpdated(Chat),
    Disconnected,
    /// The chat list arrived from a background request.
    ChatsLoaded(Vec<Chat>),
    /// A chat's messages arrived from a background request: chat id, messages.
    MessagesLoaded(String, Vec<Message>),
    /// A background request failed.
    Error(String),
}

pub fn copy_text(s: &Option<String>) -> (r: Option<String>)
    ensures
        r == *s,
{
    match s {
        Some(t) => Some(t.clone()),
        None => None,
    }
}

impl Chat {
    /// A field-by-field copy.
    pub fn duplicate(&self) -> (r: Chat)
        ensures
            r == *self,
    {
        Chat {
            id: self.id.clone(),
            name: self.name.clone(),
            is_group: self.is_group,
            unread_count: self.unread_count,
            archived: self.archived,
            timestamp: self.timestamp,
            last_message: copy_text(&self.last_message),
        }
    }
}

impl Message {
    /// A field-by-field copy.
    pub fn duplicate(&self) -> (r: Message)
        ensures
            r == *self,
    {
        Message {
            id: self.id.clone(),
            chat_id: self.chat_id.clone(),
            body: self.body.clone(),
            timestamp: self.timestamp,
            from_me: self.from_me,
            has_media: self.has_media,
            media_type: copy_text(&self.media_type),
            sender: copy_text(&self.sender),
        }
    }
}


/// A JSON value, as serde_json holds it; carried through without looking inside.
#[verifier::external_type_specification]
#[verifier::external_body]
pub struct ExJsonValue(serde_json::Value);

/// A request frame: `{id, method, params}`.
#[derive(Debug)]
pub struct WhatsAppRequest {
    pub id: String,
    pub method: String,
    pub params: serde_json::Value,
}

/// A reply frame: `{id, result?, error?}`.
#[derive(Debug)]
pub struct WhatsAppResponse {
    pub id: String,
    pub result: Option<serde_json::Value>,
    pub error: Option<String>,
}

impl WhatsAppResponse {
    /// The reply's outcome: its error where it has one, else its result; a
    /// reply with neither fails.
    pub fn into_result(self) -> (r: Result<serde_json::Value, ClientError>)
        ensures
            self.error matches Some(e) ==> r == Err::<serde_json::Value, ClientError>(ClientError::Service(e)),
            self.error is None && self.result is Some ==> r == Ok::<serde_json::Value, ClientError>(
                self.result.unwrap(),
            ),
            self.error is None && self.result is None ==> r == Err::<serde_json::Value, ClientError>(
                ClientError::NoResult,
            ),
    {
        reply_outcome(self.result, self.error)
    }
}

} // verus!
