//! Error kinds of the bot and of its event handlers.

use vstd::prelude::*;
use vstd::std_specs::convert::FromSpecImpl;

verus! {

/// The error type of the REST client, `rive_http::Error`. It is carried
/// through as an opaque value: nothing is claimed of what it holds.
#[verifier::external_type_specification]
#[verifier::external_body]
pub struct ExHttpError(rive_http::Error);

/// The error type of the gateway client, `rive_gateway::Error`. It is carried
/// through as an opaque value: nothing is claimed of what it holds.
#[verifier::external_type_specification]
#[verifier::external_body]
pub struct ExGatewayError(rive_gateway::Error);

/// Why an operation of the bot failed.
#[derive(Debug, Clone, Copy, PartialEq, Eq, Structural)]
pub enum BotError {
    /// The gateway or the REST service failed.
    APIError,
    /// The event stream of the gateway ended: it has no more events.
    StreamEnded,
    /// No credential was configured.
    MissingToken,
    /// A pull from the gateway was attempted while another one was in flight.
    RefcellError,
}

impl BotError {
    /// What this kind of error is, in words.
    pub fn description(&self) -> (r: &'static str)
        ensures
            r@ == "An Error in the operation of the bot"@,
    {
        "An Error in the operation of the bot"
    }
}

impl From<rive_http::Error> for BotError {
    /// Every failure of the REST service is an `APIError`.
    fn from(_value: rive_http::Error) -> (r: BotError) {
        BotError::APIError
    }
}

impl FromSpecImpl<rive_http::Error> for BotError {
    open spec fn obeys_from_spec() -> bool {
        true
    }

    open spec fn from_spec(_value: rive_http::Error) -> BotError {
        BotError::APIError
    }
}

impl From<rive_gateway::Error> for BotError {
    /// Every failure of the gateway is an `APIError`.
    fn from(_value: rive_gateway::Error) -> (r: BotError) {
        BotError::APIError
    }
}

impl FromSpecImpl<rive_gateway::Error> for BotError {
    open spec fn obeys_from_spec() -> bool {
        true
    }

    open spec fn from_spec(_value: rive_gateway::Error) -> BotError {
        BotError::APIError
    }
}

/// The handler category in which handling an event failed.
#[derive(Debug, Clone, Copy, PartialEq, Eq, Structural)]
pub enum EventHandleError {
    Message,
    MessageReact,
    MessageUnReact,
    MessageRemoveReact,
    MessageDelete,
    EmojiDelete,
    ServerDelete,
}

impl EventHandleError {
    /// What this kind of error is, in words.
    pub fn description(&self) -> (r: &'static str)
        ensures
            r@ == "An Error in event handling"@,
    {
        "An Error in event handling"
    }

    /// The handler category to blame for a failure of the bot while it handled
    /// an event. Only a failed API call can come out of a handler: the other
    /// kinds belong to startup and to the gateway, and are left out.
    pub fn from(value: BotError) -> (r: EventHandleError)
        requires
            value == BotError::APIError,
        ensures
            r == EventHandleError::Message,
    {
        EventHandleError::Message
    }
}

} // verus!
