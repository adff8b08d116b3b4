use vstd::prelude::*;

use crate::types::inline_keyboard_markup::InlineKeyboardMarkup;
use crate::types::input_message_content::InputMessageContent;

verus! {

/// A link to a voice message stored on the platform's servers.
#[derive(Debug, PartialEq, Clone)]
pub struct InlineQueryResultCachedVoice {
    pub id: String,
    pub voice_file_id: String,
    pub title: String,
    pub caption: Option<String>,
    pub parse_mode: Option<String>,
    pub reply_markup: Option<InlineKeyboardMarkup>,
    pub input_message_content: Option<InputMessageContent>,
}

} // verus!
