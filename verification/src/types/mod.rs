//! Payload types of the bot API.

pub mod chat_id;
pub mod inline_keyboard_button;
pub mod inline_keyboard_markup;
pub mod inline_query_result_cached_voice;
pub mod inline_query_result_document;
pub mod input_message_content;

pub use chat_id::ChatId;
pub use inline_keyboard_button::{InlineKeyboardButton, InlineKeyboardButtonKind};
pub use inline_keyboard_markup::InlineKeyboardMarkup;
pub use inline_query_result_cached_voice::InlineQueryResultCachedVoice;
pub use inline_query_result_document::InlineQueryResultDocument;
pub use input_message_content::InputMessageContent;
