//! Decision logic of a chat bot that drains one gateway event stream.

pub mod bot;
pub mod dispatch;
pub mod error;
pub mod event;
pub mod gateway;
pub mod lifecycle;
pub mod role_map;
