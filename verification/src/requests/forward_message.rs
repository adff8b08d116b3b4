use vstd::prelude::*;
use vstd::std_specs::convert::IntoSpec;

use crate::types::ChatId;

verus! {

/// Use this method to forward messages of any kind. On success, the sent
/// message is returned.
#[derive(Debug, PartialEq, Eq, Clone)]
pub struct ForwardMessage {
    /// Unique identifier for the target chat or username of the target
    /// channel (in the format `@channelusername`).
    pub chat_id: ChatId,
    /// Unique identifier for the chat that the message is forwarded from (or
    /// channel username in the format `@channelusername`).
    pub from_chat_id: ChatId,
    /// Sends the message silently. Users will receive a notification with
    /// no sound.
    pub disable_notification: Option<bool>,
    /// Message identifier in the chat specified in `from_chat_id`.
    pub message_id: i32,
}

impl ForwardMessage {
    /// A request to forward message `message_id` of chat `from_chat_id` to
    /// chat `chat_id`, with the notification setting left to the platform.
    pub fn new<C, F>(chat_id: C, from_chat_id: F, message_id: i32) -> (request: Self) where
        C: Into<ChatId>,
        F: Into<ChatId>,

        ensures
            request.message_id == message_id,
            request.disable_notification is None,
            call_ensures(C::into, (chat_id,), request.chat_id),
            call_ensures(F::into, (from_chat_id,), request.from_chat_id),
            C::obeys_into_spec() ==> request.chat_id == chat_id.into_spec(),
            F::obeys_into_spec() ==> request.from_chat_id == from_chat_id.into_spec(),
    {
        let chat_id = chat_id.into();
        let from_chat_id = from_chat_id.into();
        ForwardMessage { chat_id, from_chat_id, message_id, disable_notification: None }
    }

    /// The same request with another target chat.
    pub fn chat_id<T>(self, val: T) -> (request: Self) where T: Into<ChatId>
        ensures
            request.from_chat_id == self.from_chat_id,
            request.disable_notification == self.disable_notification,
            request.message_id == self.message_id,
            call_ensures(T::into, (val,), request.chat_id),
            T::obeys_into_spec() ==> request.chat_id == val.into_spec(),
    {
        let mut request = self;
        request.chat_id = val.into();
        request
    }

    /// The same request with another chat to take the message from.
    pub fn from_chat_id<T>(self, val: T) -> (request: Self) where T: Into<ChatId>
        ensures
            request.chat_id == self.chat_id,
            request.disable_notification == self.disable_notification,
            request.message_id == self.message_id,
            call_ensures(T::into, (val,), request.from_chat_id),
            T::obeys_into_spec() ==> request.from_chat_id == val.into_spec(),
    {
        let mut request = self;
        request.from_chat_id = val.into();
        request
    }

    /// The same request with the notification setting given.
    pub fn disable_notification(self, val: bool) -> (request: Self)
        ensures
            request == (ForwardMessage { disable_notification: Some(val), ..self }),
    {
        let mut request = self;
        request.disable_notification = Some(val);
        request
    }

    /// The same request for another message.
    pub fn message_id(self, val: i32) -> (request: Self)
        ensures
            request == (ForwardMessage { message_id: val, ..self }),
    {
        let mut request = self;
        request.message_id = val;
        request
    }
}

} // verus!
