use teloxide::requests::ForwardMessage;
use teloxide::types::{
    ChatId, InlineKeyboardButton, InlineKeyboardButtonKind, InlineKeyboardMarkup,
    InlineQueryResultCachedVoice, InlineQueryResultDocument, InputMessageContent,
};

#[test]
fn chat_id_from_a_number_is_an_id() {
    assert_eq!(ChatId::from(123456), ChatId::Id(123456));
    assert_eq!(ChatId::from(-1), ChatId::Id(-1));
    let chat: ChatId = i64::MIN.into();
    assert_eq!(chat, ChatId::Id(i64::MIN));
}

#[test]
fn chat_id_from_a_string_is_a_channel_username() {
    assert_eq!(
        ChatId::from("@username".to_string()),
        ChatId::ChannelUsername("@username".to_string())
    );
    assert_ne!(ChatId::from("1".to_string()), ChatId::Id(1));
}

#[test]
fn new_forward_message_leaves_notification_unset() {
    let request = ForwardMessage::new(1, "@source".to_string(), 42);
    assert_eq!(
        request,
        ForwardMessage {
            chat_id: ChatId::Id(1),
            from_chat_id: ChatId::ChannelUsername("@source".to_string()),
            disable_notification: None,
            message_id: 42,
        }
    );
}

#[test]
fn new_forward_message_takes_chat_ids_as_they_are() {
    let request = ForwardMessage::new(ChatId::ChannelUsername("@a".to_string()), ChatId::Id(2), 0);
    assert_eq!(request.chat_id, ChatId::ChannelUsername("@a".to_string()));
    assert_eq!(request.from_chat_id, ChatId::Id(2));
    assert_eq!(request.message_id, 0);
    assert_eq!(request.disable_notification, None);
}

#[test]
fn chat_id_sets_only_the_target_chat() {
    let request = ForwardMessage::new(1, 2, 3).chat_id("@target".to_string());
    assert_eq!(
        request,
        ForwardMessage {
            chat_id: ChatId::ChannelUsername("@target".to_string()),
            from_chat_id: ChatId::Id(2),
            disable_notification: None,
            message_id: 3,
        }
    );
}

#[test]
fn from_chat_id_sets_only_the_source_chat() {
    let request = ForwardMessage::new(1, 2, 3).from_chat_id(77);
    assert_eq!(
        request,
        ForwardMessage {
            chat_id: ChatId::Id(1),
            from_chat_id: ChatId::Id(77),
            disable_notification: None,
            message_id: 3,
        }
    );
}

#[test]
fn disable_notification_sets_only_the_flag() {
    let request = ForwardMessage::new(1, 2, 3).disable_notification(true);
    assert_eq!(
        request,
        ForwardMessage {
            chat_id: ChatId::Id(1),
            from_chat_id: ChatId::Id(2),
            disable_notification: Some(true),
            message_id: 3,
        }
    );
    assert_eq!(request.disable_notification(false).disable_notification, Some(false));
}

#[test]
fn message_id_sets_only_the_message() {
    let request = ForwardMessage::new(1, 2, 3).message_id(i32::MIN);
    assert_eq!(
        request,
        ForwardMessage {
            chat_id: ChatId::Id(1),
            from_chat_id: ChatId::Id(2),
            disable_notification: None,
            message_id: i32::MIN,
        }
    );
}

#[test]
fn builders_chain_and_the_last_call_wins() {
    let request = ForwardMessage::new(1, 2, 3)
        .chat_id(10)
        .from_chat_id("@from".to_string())
        .disable_notification(true)
        .message_id(30)
        .chat_id(11)
        .message_id(31);
    assert_eq!(
        request,
        ForwardMessage {
            chat_id: ChatId::Id(11),
            from_chat_id: ChatId::ChannelUsername("@from".to_string()),
            disable_notification: Some(true),
            message_id: 31,
        }
    );
}

fn button(text: &str, data: &str) -> InlineKeyboardButton {
    InlineKeyboardButton {
        text: text.to_string(),
        kind: InlineKeyboardButtonKind::CallbackData(data.to_string()),
    }
}

#[test]
fn inline_keyboard_markup_keeps_its_rows() {
    let rows = vec![vec![button("yes", "y"), button("no", "n")], vec![], vec![button("?", "h")]];
    let markup = InlineKeyboardMarkup::new(rows.clone());
    assert_eq!(markup.inline_keyboard(), &rows);
    assert_eq!(markup, InlineKeyboardMarkup::new(rows.clone()));
    assert_ne!(markup, InlineKeyboardMarkup::new(Vec::new()));
    assert_eq!(markup.into_inline_keyboard(), rows);
}

#[test]
fn inline_query_results_compare_field_by_field() {
    let voice = InlineQueryResultCachedVoice {
        id: "1".to_string(),
        voice_file_id: "file".to_string(),
        title: "title".to_string(),
        caption: None,
        parse_mode: None,
        reply_markup: Some(InlineKeyboardMarkup::new(vec![vec![button("a", "b")]])),
        input_message_content: Some(InputMessageContent::Text {
            message_text: "text".to_string(),
            parse_mode: None,
            disable_web_page_preview: Some(true),
        }),
    };
    assert_eq!(voice, voice.clone());
    let mut other = voice.clone();
    other.caption = Some("caption".to_string());
    assert_ne!(voice, other);

    let document = InlineQueryResultDocument {
        id: "2".to_string(),
        title: "title".to_string(),
        caption: None,
        parse_mode: None,
        document_url: "https://example.org/a.pdf".to_string(),
        mime_type: "application/pdf".to_string(),
        description: None,
        reply_markup: None,
        input_message_content: None,
        thumb_url: None,
        thumb_width: Some(10),
        thumb_height: Some(20),
    };
    assert_eq!(document, document.clone());
    let mut wider = document.clone();
    wider.thumb_width = Some(11);
    assert_ne!(document, wider);
}
