use vendor_bot::bot::{Bot, Identity, Outbound};
use vendor_bot::error::{BotError, EventHandleError};
use vendor_bot::event::{Event, Message};
use vendor_bot::gateway::GatewayConnection;

fn text(s: &str) -> String {
    s.to_string()
}

fn gateway_failure() -> rive_gateway::Error {
    let broken = serde_json::from_str::<bool>("not json").unwrap_err();
    rive_gateway::Error::SerializationError(broken)
}

fn http_failure() -> rive_http::Error {
    rive_http::Error::Api(rive_models::error::ApiError::Unauthenticated)
}

fn hello() -> Event {
    Event::Message(Message { author: text("a"), channel: text("c"), content: Some(text("hello")) })
}

#[test]
fn new_connection_is_idle() {
    assert!(!GatewayConnection::new().is_pulling());
}

#[test]
fn first_pull_is_granted() {
    let mut connection = GatewayConnection::new();
    assert_eq!(connection.acquire(), Ok(()));
    assert!(connection.is_pulling());
}

#[test]
fn second_pull_is_refused_and_first_goes_on() {
    let mut connection = GatewayConnection::new();
    assert_eq!(connection.acquire(), Ok(()));
    assert_eq!(connection.acquire(), Err(BotError::RefcellError));
    assert_eq!(connection.acquire(), Err(BotError::RefcellError));
    assert!(connection.is_pulling());
    assert_eq!(connection.next(Some(Ok(hello()))), Ok(hello()));
    assert!(!connection.is_pulling());
}

#[test]
fn pull_is_granted_again_after_each_outcome() {
    let mut connection = GatewayConnection::new();
    assert_eq!(connection.acquire(), Ok(()));
    assert_eq!(connection.next(None), Err(BotError::StreamEnded));
    assert_eq!(connection.acquire(), Ok(()));
    assert_eq!(connection.next(Some(Err(gateway_failure()))), Err(BotError::APIError));
    assert_eq!(connection.acquire(), Ok(()));
    assert_eq!(connection.next(Some(Ok(Event::Ready))), Ok(Event::Ready));
    assert_eq!(connection.acquire(), Ok(()));
}

#[test]
fn stream_item_is_returned_as_it_is() {
    let mut connection = GatewayConnection::new();
    assert_eq!(connection.next(Some(Ok(Event::Other))), Ok(Event::Other));
    assert_eq!(connection.next(Some(Ok(hello()))), Ok(hello()));
}

#[test]
fn ended_stream_has_an_outcome_of_its_own() {
    let mut connection = GatewayConnection::new();
    assert_eq!(connection.acquire(), Ok(()));
    let ended = connection.next(None);
    assert_eq!(ended, Err(BotError::StreamEnded));
    assert_eq!(connection.acquire(), Ok(()));
    let failed = connection.next(Some(Err(gateway_failure())));
    assert_eq!(failed, Err(BotError::APIError));
    assert_ne!(ended, failed);
    assert_ne!(ended, Err(BotError::RefcellError));
}

#[test]
fn abandoned_pull_frees_the_stream() {
    let mut connection = GatewayConnection::new();
    assert_eq!(connection.acquire(), Ok(()));
    assert_eq!(connection.acquire(), Err(BotError::RefcellError));
    connection.abandon();
    assert!(!connection.is_pulling());
    assert_eq!(connection.acquire(), Ok(()));
    connection.abandon();
    connection.abandon();
    assert!(!connection.is_pulling());
}

#[test]
fn bot_starts_idle_with_its_profile() {
    let identity = Identity::new(text("me"), Some(text("boss")));
    let bot = Bot::new(Ok(identity.clone())).unwrap();
    assert_eq!(bot.bot_user, identity);
    assert!(!bot.gateway.is_pulling());
}

#[test]
fn bot_without_profile_is_an_api_error() {
    assert!(matches!(Bot::new(Err(http_failure())), Err(BotError::APIError)));
}

#[test]
fn bot_next_event_ends_the_pull() {
    let mut bot = Bot::new(Ok(Identity::new(text("me"), None))).unwrap();
    assert_eq!(bot.gateway.acquire(), Ok(()));
    assert_eq!(bot.gateway.acquire(), Err(BotError::RefcellError));
    assert_eq!(bot.next_event(Some(Ok(hello()))), Ok(hello()));
    assert!(!bot.gateway.is_pulling());
    assert_eq!(bot.bot_user.account_id, "me");
    assert_eq!(bot.gateway.acquire(), Ok(()));
    assert_eq!(bot.next_event(Some(Err(gateway_failure()))), Err(BotError::APIError));
    assert_eq!(bot.gateway.acquire(), Ok(()));
    assert_eq!(bot.next_event(None), Err(BotError::StreamEnded));
}

#[test]
fn identity_is_a_bot_when_it_has_an_owner() {
    let owned = Identity::new(text("me"), Some(text("boss")));
    assert_eq!(owned.account_id, "me");
    assert!(owned.is_bot);
    assert_eq!(owned.owner_id, Some(text("boss")));
    let plain = Identity::new(text("me"), None);
    assert!(!plain.is_bot);
    assert_eq!(plain.owner_id, None);
}

#[test]
fn send_message_keeps_channel_and_text() {
    let bot = Bot::new(Ok(Identity::new(text("me"), None))).unwrap();
    let outbound = bot.send_message(text("chan"), text("Ping!"));
    assert_eq!(outbound, Outbound { channel: text("chan"), content: text("Ping!") });
}

#[test]
fn sent_maps_failure_to_api_error() {
    let posted = Message { author: text("me"), channel: text("c"), content: Some(text("Ping!")) };
    assert_eq!(Bot::sent(Ok(posted.clone())), Ok(posted));
    assert_eq!(Bot::sent(Err(http_failure())), Err(BotError::APIError));
}

#[test]
fn outside_errors_become_api_errors() {
    assert_eq!(BotError::from(http_failure()), BotError::APIError);
    assert_eq!(BotError::from(gateway_failure()), BotError::APIError);
}

#[test]
fn api_error_in_a_handler_blames_the_message_handler() {
    assert_eq!(EventHandleError::from(BotError::APIError), EventHandleError::Message);
}

#[test]
fn errors_describe_themselves() {
    assert_eq!(BotError::APIError.description(), "An Error in the operation of the bot");
    assert_eq!(BotError::MissingToken.description(), "An Error in the operation of the bot");
    assert_eq!(BotError::StreamEnded.description(), "An Error in the operation of the bot");
    assert_eq!(EventHandleError::ServerDelete.description(), "An Error in event handling");
}
