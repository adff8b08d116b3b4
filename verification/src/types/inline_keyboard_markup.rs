use vstd::prelude::*;

use crate::types::inline_keyboard_button::InlineKeyboardButton;

verus! {

/// This object represents an inline keyboard that appears right next to the
/// message it belongs to.
#[derive(Debug, Hash, PartialEq, Eq, Clone)]
pub struct InlineKeyboardMarkup {
    inline_keyboard: Vec<Vec<InlineKeyboardButton>>,
}

impl InlineKeyboardMarkup {
    /// The rows of buttons, top to bottom.
    pub closed spec fn rows(self) -> Vec<Vec<InlineKeyboardButton>> {
        self.inline_keyboard
    }

    /// A keyboard made of the given rows of buttons.
    pub fn new(inline_keyboard: Vec<Vec<InlineKeyboardButton>>) -> (markup: Self)
        ensures
            markup.rows() == inline_keyboard,
    {
        InlineKeyboardMarkup { inline_keyboard }
    }

    /// The rows of buttons, top to bottom.
    pub fn inline_keyboard(&self) -> (rows: &Vec<Vec<InlineKeyboardButton>>)
        ensures
            *rows == self.rows(),
    {
        &self.inline_keyboard
    }

    /// Gives the rows of buttons back.
    pub fn into_inline_keyboard(self) -> (rows: Vec<Vec<InlineKeyboardButton>>)
        ensures
            rows == self.rows(),
    {
        self.inline_keyboard
    }
}

} // verus!
