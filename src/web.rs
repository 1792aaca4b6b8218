use vstd::prelude::*;

verus! {

/// Where the remote chat service is and the bot's credential for it.
#[derive(Clone, Debug)]
pub struct TgClientConfig {
    pub api_url: String,
    pub bot_id: i64,
    pub bot_secret: String,
}

/// A message as the remote chat service reports it.
#[derive(Clone, Debug)]
pub struct WMessage {
    pub message_id: i64,
    pub text: String,
    pub chat: WChat,
}

/// The new state of a message the user edited.
#[derive(Clone, Debug)]
pub struct WEditedMessage {
    pub message_id: i64,
    pub text: String,
}

/// A press on a button of a card: `data` is the button's callback data, `message` the
/// card it belongs to.
#[derive(Clone, Debug)]
pub struct WCallbackQuery {
    pub data: String,
    pub message: WMessage,
}

#[derive(Clone, Debug)]
pub struct WChat {
    pub id: i64,
}

/// One inbound event of the long poll.
#[derive(Clone, Debug)]
pub struct WUpdate {
    pub update_id: i64,
    pub message: Option<WMessage>,
    pub callback_query: Option<WCallbackQuery>,
    pub edited_message: Option<WEditedMessage>,
}

/// The envelope of every reply of the remote service.
#[derive(Clone, Debug)]
pub struct Wrapper<T> {
    pub ok: bool,
    pub result: Option<T>,
    pub error_code: Option<i64>,
    pub description: Option<String>,
}

/// Rows of buttons shown under a message.
#[derive(Clone, Debug)]
pub struct InlineKeyboardMarkup {
    pub inline_keyboard: Vec<Vec<KeyboardButton>>,
}

impl InlineKeyboardMarkup {
    pub fn new(inline_keyboard: Vec<Vec<KeyboardButton>>) -> (r: Self)
        ensures
            r.inline_keyboard == inline_keyboard,
    {
        Self { inline_keyboard }
    }
}

/// A button with its label and the data sent back when it is pressed.
#[derive(Clone, Debug)]
pub struct KeyboardButton {
    pub text: String,
    pub callback_data: String,
}

impl KeyboardButton {
    pub fn new(text: String, callback_data: String) -> (r: Self)
        ensures
            r == (KeyboardButton { text, callback_data }),
    {
        Self { text, callback_data }
    }
}

/// The body of a request to delete a message of a chat.
#[derive(Clone, Debug)]
pub struct DeleteMessage {
    pub chat_id: i64,
    pub message_id: i64,
}

impl DeleteMessage {
    pub fn new(chat_id: i64, message_id: i64) -> (r: Self)
        ensures
            r == (DeleteMessage { chat_id, message_id }),
    {
        Self { chat_id, message_id }
    }
}

/// The body of a request to post a message with buttons.
#[derive(Clone, Debug)]
pub struct WButtons {
    pub chat_id: i64,
    pub text: String,
    pub reply_markup: InlineKeyboardMarkup,
}

impl WButtons {
    pub fn new(chat_id: i64, text: String, reply_markup: InlineKeyboardMarkup) -> (r: Self)
        ensures
            r.chat_id == chat_id,
            r.text == text,
            r.reply_markup.inline_keyboard == reply_markup.inline_keyboard,
    {
        Self { chat_id, text, reply_markup }
    }
}

} // verus!
