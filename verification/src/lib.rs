//! Update dispatching for a messaging-platform bot, with the request and
//! payload types it works on.

pub mod dispatcher;
pub mod requests;
pub mod types;
