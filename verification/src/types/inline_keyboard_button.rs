use vstd::prelude::*;

verus! {

/// What pressing a button of an inline keyboard does.
#[derive(Debug, Hash, PartialEq, Eq, Clone)]
pub enum InlineKeyboardButtonKind {
    /// Opens this HTTP or tg:// URL.
    Url(String),
    /// Sends this data to the bot in a callback query.
    CallbackData(String),
    /// Prompts the user to pick a chat and inserts the bot's username and
    /// this query in its input field.
    SwitchInlineQuery(String),
    /// Inserts the bot's username and this query in the input field of the
    /// current chat.
    SwitchInlineQueryCurrentChat(String),
}

/// One button of an inline keyboard.
#[derive(Debug, Hash, PartialEq, Eq, Clone)]
pub struct InlineKeyboardButton {
    /// Label text on the button.
    pub text: String,
    pub kind: InlineKeyboardButtonKind,
}

} // verus!
