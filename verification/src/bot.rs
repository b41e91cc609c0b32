//! The bot: who it is, and what it posts.

use vstd::prelude::*;
use crate::error::BotError;
use crate::event::{Event, Message};
use crate::gateway::GatewayConnection;

verus! {

/// Who the bot is: a snapshot of its own profile, taken once at startup.
#[derive(Debug, Clone, PartialEq, Eq)]
pub struct Identity {
    /// The bot's own account.
    pub account_id: String,
    /// Whether the account is marked as a bot.
    pub is_bot: bool,
    /// The account that owns the bot, where the profile names one.
    pub owner_id: Option<String>,
}

impl Identity {
    /// The identity of an account, from its id and from the owner that its bot
    /// information names. An account is a bot exactly when it has such an owner.
    pub fn new(account_id: String, bot_owner: Option<String>) -> (r: Identity)
        ensures
            r.account_id == account_id,
            r.is_bot == bot_owner.is_some(),
            r.owner_id == bot_owner,
    {
        let is_bot = bot_owner.is_some();
        Identity { account_id, is_bot, owner_id: bot_owner }
    }
}

/// A message that the bot wants posted.
#[derive(Debug, Clone, PartialEq, Eq)]
pub struct Outbound {
    /// The channel to post to.
    pub channel: String,
    /// The text to post. Everything else about the message is left at its default.
    pub content: String,
}

/// The text and the channel of an outbound message.
pub struct OutboundView {
    pub channel: Seq<char>,
    pub content: Seq<char>,
}

impl View for Outbound {
    type V = OutboundView;

    open spec fn view(&self) -> OutboundView {
        OutboundView { channel: self.channel@, content: self.content@ }
    }
}

/// The bot: its own profile and its connection to the gateway.
#[derive(Debug)]
pub struct Bot {
    /// The bot's own profile.
    pub bot_user: Identity,
    /// The connection that its events come from.
    pub gateway: GatewayConnection,
}

impl Bot {
    /// The bot, from the answer to the request for its own profile, which is
    /// made once the gateway is connected. A failed request is an `APIError`.
    /// The new bot has no pull in flight.
    pub fn new(fetched: Result<Identity, rive_http::Error>) -> (r: Result<Bot, BotError>)
        ensures
            match fetched {
                Ok(identity) => r matches Ok(bot) && bot.bot_user == identity
                    && !bot.gateway.pulling(),
                Err(_) => r == Err::<Bot, BotError>(BotError::APIError),
            },
    {
        match fetched {
            Ok(identity) => Ok(Bot { bot_user: identity, gateway: GatewayConnection::new() }),
            Err(error) => Err(BotError::from(error)),
        }
    }

    /// Ends the pull in flight with what the stream yielded: the event where it
    /// yielded one, `APIError` where it failed, `StreamEnded` where it has ended.
    /// The profile stays.
    pub fn next_event(&mut self, item: Option<Result<Event, rive_gateway::Error>>) -> (r: Result<
        Event,
        BotError,
    >)
        ensures
            r == GatewayConnection::classify(item),
            final(self).gateway == old(self).gateway.released(),
            !final(self).gateway.pulling(),
            final(self).bot_user == old(self).bot_user,
    {
        self.gateway.next(item)
    }

    /// The message to post for `message` in `channel`.
    pub fn send_message(&self, channel: String, message: String) -> (r: Outbound)
        ensures
            r.channel == channel,
            r.content == message,
    {
        Outbound { channel, content: message }
    }

    /// What posting a message amounts to, from the REST service's answer: the
    /// message as it was posted, or an `APIError` where the post failed.
    pub fn sent(answer: Result<Message, rive_http::Error>) -> (r: Result<Message, BotError>)
        ensures
            match answer {
                Ok(posted) => r == Ok::<Message, BotError>(posted),
                Err(_) => r == Err::<Message, BotError>(BotError::APIError),
            },
    {
        match answer {
            Ok(posted) => Ok(posted),
            Err(error) => Err(BotError::from(error)),
        }
    }
}

} // verus!
