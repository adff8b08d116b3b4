//! Requests to the bot API, built field by field.

pub mod forward_message;

pub use crate::types::ChatId;
pub use forward_message::ForwardMessage;
