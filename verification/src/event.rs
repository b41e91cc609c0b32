//! The events that the gateway delivers, reduced to what dispatch reads.

use vstd::prelude::*;

verus! {

/// A message posted to a channel.
#[derive(Debug, Clone, PartialEq, Eq)]
pub struct Message {
    /// The account that wrote the message.
    pub author: String,
    /// The channel it was posted to.
    pub channel: String,
    /// Its text, if it has any.
    pub content: Option<String>,
}

/// A reaction was added to a message.
#[derive(Debug, Clone, PartialEq, Eq)]
pub struct MessageReactEvent {
    pub id: String,
    pub channel_id: String,
    pub user_id: String,
    pub emoji_id: String,
}

/// An account took its reaction back.
#[derive(Debug, Clone, PartialEq, Eq)]
pub struct MessageUnreactEvent {
    pub id: String,
    pub channel_id: String,
    pub user_id: String,
    pub emoji_id: String,
}

/// A reaction was removed from a message for every account.
#[derive(Debug, Clone, PartialEq, Eq)]
pub struct MessageRemoveReactionEvent {
    pub id: String,
    pub channel_id: String,
    pub emoji_id: String,
}

/// A message was deleted.
#[derive(Debug, Clone, PartialEq, Eq)]
pub struct MessageDeleteEvent {
    pub id: String,
    pub channel: String,
}

/// An emoji was deleted.
#[derive(Debug, Clone, PartialEq, Eq)]
pub struct EmojiDeleteEvent {
    pub id: String,
}

/// A server was deleted.
#[derive(Debug, Clone, PartialEq, Eq)]
pub struct ServerDeleteEvent {
    pub id: String,
}

/// One decoded event. The kinds that no handler exists for are all `Other`.
#[derive(Debug, Clone, PartialEq, Eq)]
pub enum Event {
    Ready,
    Message(Message),
    MessageReact(MessageReactEvent),
    MessageUnreact(MessageUnreactEvent),
    MessageRemoveReaction(MessageRemoveReactionEvent),
    MessageDelete(MessageDeleteEvent),
    EmojiDelete(EmojiDeleteEvent),
    ServerDelete(ServerDeleteEvent),
    Other,
}

} // verus!
