//! Exclusive access to the one event stream of the gateway.

use vstd::prelude::*;
use crate::error::BotError;
use crate::event::Event;

verus! {

/// The connection to the gateway. Its stream serves one pull at a time: a pull
/// is acquired, awaited by the caller, and ended by `next`, or given up by
/// `abandon`. A second pull that is asked for meanwhile is refused, which tells
/// a fault of the caller from a fault of the network.
#[derive(Debug)]
pub struct GatewayConnection {
    pulling: bool,
}

impl GatewayConnection {
    /// Whether a pull is in flight.
    pub closed spec fn pulling(self) -> bool {
        self.pulling
    }

    /// The connection once a pull has been asked for: a pull is in flight.
    pub closed spec fn acquired(self) -> GatewayConnection {
        GatewayConnection { pulling: true }
    }

    /// The connection once a pull has come back: none is in flight.
    pub closed spec fn released(self) -> GatewayConnection {
        GatewayConnection { pulling: false }
    }

    /// What asking for a pull answers: a refusal while one is in flight.
    pub open spec fn acquire_answer(self) -> Result<(), BotError> {
        if self.pulling() {
            Err(BotError::RefcellError)
        } else {
            Ok(())
        }
    }

    /// What a pull amounts to, from what the stream yielded: the event, an
    /// `APIError` where the stream failed, `StreamEnded` where it has no more.
    pub open spec fn classify(item: Option<Result<Event, rive_gateway::Error>>) -> Result<
        Event,
        BotError,
    > {
        match item {
            Some(Ok(event)) => Ok(event),
            Some(Err(_)) => Err(BotError::APIError),
            None => Err(BotError::StreamEnded),
        }
    }

    /// A connection that was just made: no pull is in flight.
    pub fn new() -> (r: GatewayConnection)
        ensures
            !r.pulling(),
    {
        GatewayConnection { pulling: false }
    }

    /// Whether a pull is in flight.
    pub fn is_pulling(&self) -> (r: bool)
        ensures
            r == self.pulling(),
    {
        self.pulling
    }

    /// Asks for the stream, for one pull. While a pull is in flight the answer
    /// is `RefcellError`, at once, and the connection is left as it was.
    pub fn acquire(&mut self) -> (r: Result<(), BotError>)
        ensures
            r == old(self).acquire_answer(),
            *final(self) == old(self).acquired(),
            final(self).pulling(),
            old(self).pulling() ==> *final(self) == *old(self),
    {
        if self.pulling {
            Err(BotError::RefcellError)
        } else {
            self.pulling = true;
            Ok(())
        }
    }

    /// Ends the pull in flight with what the stream yielded: the event where it
    /// yielded one, `APIError` where it failed, `StreamEnded` where it has ended.
    pub fn next(&mut self, item: Option<Result<Event, rive_gateway::Error>>) -> (r: Result<
        Event,
        BotError,
    >)
        ensures
            r == GatewayConnection::classify(item),
            *final(self) == old(self).released(),
            !final(self).pulling(),
    {
        self.pulling = false;
        match item {
            Some(Ok(event)) => Ok(event),
            Some(Err(error)) => Err(BotError::from(error)),
            None => Err(BotError::StreamEnded),
        }
    }

    /// Gives up the pull in flight, for a caller that stopped waiting for the
    /// stream: no pull is in flight afterwards.
    pub fn abandon(&mut self)
        ensures
            *final(self) == old(self).released(),
            !final(self).pulling(),
    {
        self.pulling = false;
    }

    /// A pull in flight shows in nothing but `pulling`: two connections are the
    /// same exactly when they agree on it.
    pub proof fn law_state_is_the_flag(a: GatewayConnection, b: GatewayConnection)
        ensures
            (a == b) <==> (a.pulling() == b.pulling()),
            a.acquired().pulling(),
            !a.released().pulling(),
    {
    }

    /// A pull that is asked for while another is in flight is refused with
    /// `RefcellError`, and the connection is what it was before the refusal, so
    /// the pull in flight ends as it would have ended without it.
    pub proof fn law_second_pull_refused(c: GatewayConnection)
        requires
            c.pulling(),
        ensures
            c.acquire_answer() == Err::<(), BotError>(BotError::RefcellError),
            c.acquired() == c,
            c.acquired().released() == c.released(),
    {
    }

    /// Once a pull has ended, whatever it yielded, the next one is granted.
    pub proof fn law_pull_after_pull(c: GatewayConnection)
        ensures
            c.released().acquire_answer() == Ok::<(), BotError>(()),
    {
    }
}

} // verus!
