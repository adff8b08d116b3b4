use vstd::prelude::*;

verus! {

/// The content of a message to be sent as the result of an inline query.
#[derive(Debug, PartialEq, Eq, Clone)]
pub enum InputMessageContent {
    /// A text message.
    Text {
        /// Text of the message to be sent, 1-4096 characters.
        message_text: String,
        /// How entities in the text are marked up, if they are.
        parse_mode: Option<String>,
        /// Disables link previews for links in the sent message.
        disable_web_page_preview: Option<bool>,
    },
    /// A contact.
    Contact {
        /// Contact's phone number.
        phone_number: String,
        /// Contact's first name.
        first_name: String,
        /// Contact's last name.
        last_name: Option<String>,
    },
}

} // verus!
