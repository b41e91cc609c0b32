//! The life of the process: startup, then the loop that never ends by itself.

use vstd::prelude::*;
use crate::bot::{Bot, Outbound};
use crate::dispatch::{handle_event, message_sent, owner_view, reply_to};
use crate::error::{BotError, EventHandleError};
use crate::event::{Event, Message};
use crate::role_map::RoleMap;

verus! {

/// The server of the sample binding.
pub const SAMPLE_SERVER: &'static str = "01GV8NV8QHJCYE0BGCR8SDHBN8";

/// The emoji of the sample binding.
pub const SAMPLE_EMOJI: &'static str = "1GV8ZMSVB15CYGAAJ3XKPVNXJ";

/// The role of the sample binding.
pub const SAMPLE_ROLE: &'static str = "hedgehog";

/// Where the process stands.
#[derive(Debug, Clone, Copy, PartialEq, Eq, Structural)]
pub enum Phase {
    /// The credential is read, the gateway connected, the identity resolved.
    Starting,
    /// Events are pulled and dispatched, one after the other.
    Running,
    /// Startup has failed.
    Terminated,
}

/// A failure as the loop reports it.
#[derive(Debug, Clone, Copy, PartialEq, Eq, Structural)]
pub enum Failure {
    /// The bot failed: at startup, or in a pull from the gateway.
    Bot(BotError),
    /// A handler failed.
    Handler(EventHandleError),
}

/// What is left to do in one turn of the loop, once the pull has come back.
#[derive(Debug, PartialEq, Eq)]
pub enum Turn {
    /// Nothing: the event is handled.
    Idle,
    /// Post this message, and report a failure of the post.
    Post(Outbound),
    /// Report this failure.
    Report(Failure),
}

impl Phase {
    /// The phase after an operation that ended as `outcome`. A failure ends the
    /// process during startup only: once running, the process keeps running.
    pub open spec fn after(self, outcome: Result<(), Failure>) -> Phase {
        match self {
            Phase::Starting => if outcome is Ok {
                Phase::Running
            } else {
                Phase::Terminated
            },
            Phase::Running => Phase::Running,
            Phase::Terminated => Phase::Terminated,
        }
    }

    /// The phase after a run of operations, each ended as `outcomes` tells.
    pub open spec fn after_all(self, outcomes: Seq<Result<(), Failure>>) -> Phase
        decreases outcomes.len(),
    {
        if outcomes.len() == 0 {
            self
        } else {
            self.after_all(outcomes.drop_last()).after(outcomes.last())
        }
    }

    /// The phase after an operation that ended as `outcome`.
    pub fn advance(self, outcome: Result<(), Failure>) -> (r: Phase)
        ensures
            r == self.after(outcome),
    {
        match self {
            Phase::Starting => match outcome {
                Ok(()) => Phase::Running,
                Err(_) => Phase::Terminated,
            },
            Phase::Running => Phase::Running,
            Phase::Terminated => Phase::Terminated,
        }
    }

    /// However many operations fail in whatever way, a running process keeps
    /// running.
    pub proof fn law_running_stays(outcomes: Seq<Result<(), Failure>>)
        ensures
            Phase::Running.after_all(outcomes) == Phase::Running,
        decreases outcomes.len(),
    {
        if outcomes.len() > 0 {
            Phase::law_running_stays(outcomes.drop_last());
        }
    }

    /// A failure during startup ends the process, whatever follows.
    pub proof fn law_startup_failure_is_final(
        failure: Failure,
        outcomes: Seq<Result<(), Failure>>,
    )
        ensures
            Phase::Starting.after(Err(failure)) == Phase::Terminated,
            Phase::Terminated.after_all(outcomes) == Phase::Terminated,
        decreases outcomes.len(),
    {
        if outcomes.len() > 0 {
            Phase::law_startup_failure_is_final(failure, outcomes.drop_last());
        }
    }
}

/// The credential to connect with, from what the configuration holds. Without
/// one, startup fails with `MissingToken`.
pub fn credential(token: Option<String>) -> (r: Result<String, BotError>)
    ensures
        match token {
            Some(value) => r == Ok::<String, BotError>(value),
            None => r == Err::<String, BotError>(BotError::MissingToken),
        },
{
    match token {
        Some(value) => Ok(value),
        None => Err(BotError::MissingToken),
    }
}

/// The role map that the process starts with: empty, but for one sample
/// binding in a development configuration.
pub fn initial_roles(development: bool) -> (r: RoleMap)
    ensures
        r.well_formed(),
        r@ == if development {
            Map::<(Seq<char>, Seq<char>), Seq<char>>::empty().insert(
                (SAMPLE_SERVER@, SAMPLE_EMOJI@),
                SAMPLE_ROLE@,
            )
        } else {
            Map::<(Seq<char>, Seq<char>), Seq<char>>::empty()
        },
{
    let mut role_map = RoleMap::new();
    if development {
        role_map.insert(
            SAMPLE_SERVER.to_string(),
            SAMPLE_EMOJI.to_string(),
            SAMPLE_ROLE.to_string(),
        );
    }
    role_map
}

/// One turn of the loop, from what the pull returned. A failed pull is
/// reported and nothing is dispatched. An event is dispatched, once; where the
/// dispatcher asks for a message, the turn is to post it.
pub fn turn(
    pulled: Result<Event, BotError>,
    role_map: &mut RoleMap,
    vendor_bot: &Bot,
    owner_id: &Option<String>,
) -> (r: Turn)
    ensures
        match pulled {
            Ok(event) => match r {
                Turn::Idle => reply_to(event, vendor_bot.bot_user, owner_view(*owner_id))
                    is None,
                Turn::Post(outbound) => reply_to(
                    event,
                    vendor_bot.bot_user,
                    owner_view(*owner_id),
                ) == Some(outbound@),
                Turn::Report(_) => false,
            },
            Err(error) => r == Turn::Report(Failure::Bot(error)),
        },
        *final(role_map) == *old(role_map),
{
    match pulled {
        Ok(event) => match handle_event(event, role_map, vendor_bot, owner_id) {
            Ok(Some(outbound)) => Turn::Post(outbound),
            Ok(None) => Turn::Idle,
            Err(category) => Turn::Report(Failure::Handler(category)),
        },
        Err(error) => Turn::Report(Failure::Bot(error)),
    }
}

/// What is left of a turn once its message is posted, from the REST service's
/// answer: a failed post is reported as a failure of the message handler.
pub fn posted(answer: Result<Message, rive_http::Error>) -> (r: Turn)
    ensures
        match answer {
            Ok(_) => r == Turn::Idle,
            Err(_) => r == Turn::Report(Failure::Handler(EventHandleError::Message)),
        },
{
    match message_sent(answer) {
        Ok(()) => Turn::Idle,
        Err(category) => Turn::Report(Failure::Handler(category)),
    }
}

} // verus!
