//! Event dispatch: which handler an event goes to, and what the bot answers.

use vstd::prelude::*;
use crate::bot::{Bot, Identity, Outbound, OutboundView};
use crate::error::EventHandleError;
use crate::event::{
    EmojiDeleteEvent, Event, Message, MessageDeleteEvent, MessageReactEvent,
    MessageRemoveReactionEvent, MessageUnreactEvent, ServerDeleteEvent,
};
use crate::role_map::RoleMap;

verus! {

/// The text that acknowledges a command of the owner.
pub const ACKNOWLEDGEMENT: &'static str = "Ping!";

/// What handling an event comes to: the message to post, if there is one, or
/// the handler category that failed.
pub type Handled = Result<Option<Outbound>, EventHandleError>;

/// What handling an event comes to once nothing is left to do.
pub type EventResult = Result<(), EventHandleError>;

/// Whether a message is acknowledged: it is not the bot's own, the bot's
/// account is marked as a bot, and its author is the configured owner. Where
/// no owner is configured, no message is.
pub open spec fn acknowledged(msg: Message, bot_user: Identity, owner_id: Option<Seq<char>>) -> bool {
    &&& msg.author@ != bot_user.account_id@
    &&& bot_user.is_bot
    &&& owner_id == Some(msg.author@)
}

/// The configured owner as a text, if one is configured.
pub open spec fn owner_view(owner_id: Option<String>) -> Option<Seq<char>> {
    match owner_id {
        Some(owner) => Some(owner@),
        None => None,
    }
}

/// The message that a message is answered with: the acknowledgement, to the
/// channel it came from, where it is acknowledged, and none otherwise.
pub open spec fn reply_to_message(
    msg: Message,
    bot_user: Identity,
    owner_id: Option<Seq<char>>,
) -> Option<OutboundView> {
    if acknowledged(msg, bot_user, owner_id) {
        Some(OutboundView { channel: msg.channel@, content: ACKNOWLEDGEMENT@ })
    } else {
        None
    }
}

/// The message that an event is answered with: only a message has an answer.
pub open spec fn reply_to(event: Event, bot_user: Identity, owner_id: Option<Seq<char>>) -> Option<
    OutboundView,
> {
    match event {
        Event::Message(msg) => reply_to_message(msg, bot_user, owner_id),
        _ => None,
    }
}

/// The channel and the text of a message to post, if there is one.
pub open spec fn outbound_view(reply: Option<Outbound>) -> Option<OutboundView> {
    match reply {
        Some(outbound) => Some(outbound@),
        None => None,
    }
}

/// The bot never answers a message of its own, whatever the message holds and
/// whoever the owner is.
pub proof fn law_own_message_unanswered(
    msg: Message,
    bot_user: Identity,
    owner_id: Option<Seq<char>>,
)
    requires
        msg.author@ == bot_user.account_id@,
    ensures
        reply_to_message(msg, bot_user, owner_id) is None,
        reply_to(Event::Message(msg), bot_user, owner_id) is None,
{
}

/// A message of the configured owner, sent from another account than the
/// bot's own while the bot's account is marked as a bot, is answered with the
/// acknowledgement, once, in the channel it came from.
pub proof fn law_owner_message_acknowledged(msg: Message, bot_user: Identity)
    requires
        bot_user.is_bot,
        msg.author@ != bot_user.account_id@,
    ensures
        reply_to(Event::Message(msg), bot_user, Some(msg.author@)) == Some(
            OutboundView { channel: msg.channel@, content: ACKNOWLEDGEMENT@ },
        ),
{
}

/// A message of any other author than the configured owner is not answered,
/// and neither is any message while the bot's account is not marked as a bot.
pub proof fn law_other_message_unanswered(
    msg: Message,
    bot_user: Identity,
    owner_id: Option<Seq<char>>,
)
    requires
        owner_id != Some(msg.author@) || !bot_user.is_bot,
    ensures
        reply_to(Event::Message(msg), bot_user, owner_id) is None,
{
}

/// Where no owner is configured, no message is answered, whoever wrote it: an
/// author without a name is no owner either.
pub proof fn law_no_owner_no_answer(event: Event, bot_user: Identity)
    ensures
        reply_to(event, bot_user, None) is None,
{
}

/// Only a message is ever answered: an event of any other kind, and of a kind
/// that has no handler, is handled without an answer.
pub proof fn law_only_messages_answered(
    event: Event,
    bot_user: Identity,
    owner_id: Option<Seq<char>>,
)
    requires
        !(event is Message),
    ensures
        reply_to(event, bot_user, owner_id) is None,
{
}

/// Routes one event to its handler. Only a message can ask for an answer; an
/// event of a kind that has no handler is taken as handled. The role map is
/// handed to the handlers, none of which changes it.
pub fn handle_event(
    event: Event,
    role_map: &mut RoleMap,
    vendor_bot: &Bot,
    owner_id: &Option<String>,
) -> (r: Handled)
    ensures
        r matches Ok(reply) && outbound_view(reply) == reply_to(
            event,
            vendor_bot.bot_user,
            owner_view(*owner_id),
        ),
        *final(role_map) == *old(role_map),
{
    match event {
        Event::Ready => Ok(None),
        Event::Message(ev) => handle_message(ev, role_map, vendor_bot, owner_id),
        Event::MessageReact(ev) => pending(handle_react(ev, role_map)),
        Event::MessageUnreact(ev) => pending(handle_unreact(ev, role_map)),
        Event::MessageRemoveReaction(ev) => pending(handle_removed_react(ev, role_map)),
        Event::MessageDelete(ev) => pending(handle_deleted_message(ev, role_map)),
        Event::EmojiDelete(ev) => pending(handle_deleted_emote(ev, role_map)),
        Event::ServerDelete(ev) => pending(handle_deleted_server(ev, role_map)),
        Event::Other => Ok(None),
    }
}

/// Routes each event of a batch to its handler, once and in the order given:
/// there is one result for each event, at the event's place.
pub fn dispatch_all(
    events: Vec<Event>,
    role_map: &mut RoleMap,
    vendor_bot: &Bot,
    owner_id: &Option<String>,
) -> (r: Vec<Handled>)
    ensures
        r@.len() == events@.len(),
        forall|i: int|
            0 <= i < events@.len() ==> (#[trigger] r@[i] matches Ok(reply) && outbound_view(reply)
                == reply_to(events@[i], vendor_bot.bot_user, owner_view(*owner_id))),
        *final(role_map) == *old(role_map),
{
    let mut results: Vec<Handled> = Vec::new();
    for event in it: events
        invariant
            results@.len() == it.index(),
            it.seq() == events@,
            forall|i: int|
                0 <= i < results@.len() ==> (#[trigger] results@[i] matches Ok(reply)
                    && outbound_view(reply) == reply_to(
                    events@[i],
                    vendor_bot.bot_user,
                    owner_view(*owner_id),
                )),
            *role_map == *old(role_map),
    {
        let handled = handle_event(event, role_map, vendor_bot, owner_id);
        results.push(handled);
    }
    results
}

/// The result of a handler that posts nothing.
fn pending(result: EventResult) -> (r: Handled)
    ensures
        match result {
            Ok(_) => r == Ok::<Option<Outbound>, EventHandleError>(None),
            Err(category) => r == Err::<Option<Outbound>, EventHandleError>(category),
        },
{
    match result {
        Ok(()) => Ok(None),
        Err(category) => Err(category),
    }
}

/// Handles a message. The bot's own messages are passed over. A message of the
/// configured owner, where the bot's account is marked as a bot, is answered
/// with the acknowledgement in the channel it came from. Any other message is
/// accepted without an answer, and so is every message where no owner is
/// configured.
#[allow(unused_variables)]
pub fn handle_message(
    msg: Message,
    role_map: &mut RoleMap,
    vendor_bot: &Bot,
    owner_id: &Option<String>,
) -> (r: Handled)
    ensures
        r matches Ok(reply) && outbound_view(reply) == reply_to_message(
            msg,
            vendor_bot.bot_user,
            owner_view(*owner_id),
        ),
        *final(role_map) == *old(role_map),
{
    if msg.author == vendor_bot.bot_user.account_id {
        return Ok(None);
    }
    if vendor_bot.bot_user.is_bot {
        if let Some(owner) = owner_id {
            if *owner == msg.author {
                let text = ACKNOWLEDGEMENT.to_string();
                return Ok(Some(vendor_bot.send_message(msg.channel, text)));
            }
        }
        return Ok(None);
    }
    Ok(None)
}

/// Ends the handling of a message that was answered, from the REST service's
/// answer to the post: a failed post is a failure of the message handler. The
/// message as it was posted is of no further use.
pub fn message_sent(answer: Result<Message, rive_http::Error>) -> (r: EventResult)
    ensures
        match answer {
            Ok(_) => r is Ok,
            Err(_) => r == Err::<(), EventHandleError>(EventHandleError::Message),
        },
{
    match Bot::sent(answer) {
        Ok(_) => Ok(()),
        Err(error) => Err(EventHandleError::from(error)),
    }
}

/// Handles a reaction that was added. No role is granted for it yet.
#[allow(unused_variables)]
pub fn handle_react(ev: MessageReactEvent, role_map: &mut RoleMap) -> (r: EventResult)
    ensures
        r is Ok,
        *final(role_map) == *old(role_map),
{
    Ok(())
}

/// Handles a reaction that was taken back. No role is revoked for it yet.
#[allow(unused_variables)]
pub fn handle_unreact(ev: MessageUnreactEvent, role_map: &mut RoleMap) -> (r: EventResult)
    ensures
        r is Ok,
        *final(role_map) == *old(role_map),
{
    Ok(())
}

/// Handles a reaction that was removed for every account.
#[allow(unused_variables)]
pub fn handle_removed_react(ev: MessageRemoveReactionEvent, role_map: &mut RoleMap) -> (r:
    EventResult)
    ensures
        r is Ok,
        *final(role_map) == *old(role_map),
{
    Ok(())
}

/// Handles a deleted message.
#[allow(unused_variables)]
pub fn handle_deleted_message(ev: MessageDeleteEvent, role_map: &mut RoleMap) -> (r: EventResult)
    ensures
        r is Ok,
        *final(role_map) == *old(role_map),
{
    Ok(())
}

/// Handles a deleted emoji.
#[allow(unused_variables)]
pub fn handle_deleted_emote(ev: EmojiDeleteEvent, role_map: &mut RoleMap) -> (r: EventResult)
    ensures
        r is Ok,
        *final(role_map) == *old(role_map),
{
    Ok(())
}

/// Handles a deleted server.
#[allow(unused_variables)]
pub fn handle_deleted_server(ev: ServerDeleteEvent, role_map: &mut RoleMap) -> (r: EventResult)
    ensures
        r is Ok,
        *final(role_map) == *old(role_map),
{
    Ok(())
}

} // verus!
