use vstd::prelude::*;
use vstd::std_specs::convert::FromSpecImpl;

verus! {

/// Unique identifier for the target chat or username of the target channel
/// (in the format `@channelusername`).
#[derive(Debug, PartialEq, Eq, Clone)]
pub enum ChatId {
    /// Chat identifier.
    Id(i64),
    /// Channel username (in the format `@channelusername`).
    ChannelUsername(String),
}

impl From<i64> for ChatId {
    fn from(id: i64) -> (chat: ChatId) {
        ChatId::Id(id)
    }
}

impl FromSpecImpl<i64> for ChatId {
    open spec fn obeys_from_spec() -> bool {
        true
    }

    open spec fn from_spec(id: i64) -> ChatId {
        ChatId::Id(id)
    }
}

impl From<String> for ChatId {
    fn from(username: String) -> (chat: ChatId) {
        ChatId::ChannelUsername(username)
    }
}

impl FromSpecImpl<String> for ChatId {
    open spec fn obeys_from_spec() -> bool {
        true
    }

    open spec fn from_spec(username: String) -> ChatId {
        ChatId::ChannelUsername(username)
    }
}

} // verus!
