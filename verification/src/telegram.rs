//! Telegram: what the replies of the bot API mean.
//!
//! Sending a request and reading the reply is the caller's part. What a
//! reply or a failure of the transport means is decided here.

use crate::json::{json_parse, json_text, Json, JsonValue};
use crate::text::option_text;
use vstd::prelude::*;
use vstd::string::StringExecFns;

verus! {

/// A chat. Its id is kept as the API sent it.
#[derive(Debug, PartialEq)]
pub struct TelegramChat {
    pub id: Json,
    pub title: String,
    pub chat_type: String,
}

/// Who sent a message.
#[derive(Debug, PartialEq)]
pub struct TelegramUser {
    pub username: Option<String>,
}

/// A message. Its id is kept as the API sent it.
#[derive(Debug, PartialEq)]
pub struct TelegramMessage {
    pub message_id: Json,
    pub text: String,
    pub from: TelegramUser,
    pub chat: TelegramChat,
}

/// A failure that may pass: trying again later can help.
#[derive(Debug, PartialEq)]
pub enum TemporaryErrorType {
    TimedOut(String),
    TooManyRequests,
    InternalServerError(String),
    Other(String),
}

/// Why a call of the bot API failed.
#[derive(Debug, PartialEq)]
pub enum TelegramError {
    Fatal(String),
    Temporary(TemporaryErrorType),
}

/// The value of a [`TelegramError`].
pub enum TelegramErrorView {
    Fatal(Seq<char>),
    TimedOut(Seq<char>),
    TooManyRequests,
    InternalServerError(Seq<char>),
    Other(Seq<char>),
}

impl View for TelegramError {
    type V = TelegramErrorView;

    open spec fn view(&self) -> TelegramErrorView {
        match self {
            TelegramError::Fatal(message) => TelegramErrorView::Fatal(message@),
            TelegramError::Temporary(TemporaryErrorType::TimedOut(message)) => {
                TelegramErrorView::TimedOut(message@)
            },
            TelegramError::Temporary(TemporaryErrorType::TooManyRequests) => {
                TelegramErrorView::TooManyRequests
            },
            TelegramError::Temporary(TemporaryErrorType::InternalServerError(message)) => {
                TelegramErrorView::InternalServerError(message@)
            },
            TelegramError::Temporary(TemporaryErrorType::Other(message)) => {
                TelegramErrorView::Other(message@)
            },
        }
    }
}

/// What a failure of the transport means: a timeout, status 429 and status
/// 500 are temporary, everything else is fatal.
pub open spec fn transport_error(is_timeout: bool, status: Option<u16>, description: Seq<char>)
    -> TelegramErrorView {
    if is_timeout {
        TelegramErrorView::TimedOut(description)
    } else {
        match status {
            Some(code) => if code == 429 {
                TelegramErrorView::TooManyRequests
            } else if code == 500 {
                TelegramErrorView::InternalServerError(description)
            } else {
                TelegramErrorView::Fatal(description)
            },
            None => TelegramErrorView::Fatal(description),
        }
    }
}

impl TelegramError {
    /// The error for a failure of the transport: whether the request timed
    /// out, the HTTP status if there was one, and the text of the failure.
    pub fn from(is_timeout: bool, status: Option<u16>, description: String) -> (error:
        TelegramError)
        ensures
            error@ == transport_error(is_timeout, status, description@),
    {
        if is_timeout {
            return TelegramError::Temporary(TemporaryErrorType::TimedOut(description));
        }
        match status {
            Some(code) => {
                if code == 429 {
                    TelegramError::Temporary(TemporaryErrorType::TooManyRequests)
                } else if code == 500 {
                    TelegramError::Temporary(TemporaryErrorType::InternalServerError(description))
                } else {
                    TelegramError::Fatal(description)
                }
            },
            None => TelegramError::Fatal(description),
        }
    }
}

/// The address of a method of the bot API, for the bot with the token
/// `token`.
pub fn method_url(token: &str, method: &str) -> (url: String)
    ensures
        url@ == "https://api.telegram.org/bot"@ + token@ + "/"@ + method@,
{
    String::from_str("https://api.telegram.org/bot").concat(token).concat("/").concat(method)
}

/// The name of the bot in a reply to `getMyName`, or the reason why the
/// reply holds none.
pub open spec fn name_in(reply: Seq<char>) -> Result<Seq<char>, Seq<char>> {
    match json_parse(reply) {
        None => Err("Unable to parse response"@),
        Some(value) => match value.field("result"@) {
            None => Err("No result in response"@),
            Some(result) => match result.field("name"@) {
                None => Err("No name in response"@),
                Some(JsonValue::Str(name)) => Ok(name),
                Some(_) => Err("name is not a string"@),
            },
        },
    }
}

/// Reads the name of the bot from a reply to `getMyName`.
pub fn name_from_response(response_text: &str) -> (result: Result<String, TelegramError>)
    ensures
        match result {
            Ok(name) => name_in(response_text@) == Ok::<Seq<char>, Seq<char>>(name@),
            Err(error) => name_in(response_text@) is Err && error@ == TelegramErrorView::Fatal(
                name_in(response_text@)->Err_0,
            ),
        },
{
    let json = match Json::parse(response_text) {
        Some(json) => json,
        None => {
            return Err(TelegramError::Fatal(String::from_str("Unable to parse response")));
        },
    };
    let result = match json.get("result") {
        Some(result) => result,
        None => {
            return Err(TelegramError::Fatal(String::from_str("No result in response")));
        },
    };
    let name = match result.get("name") {
        Some(name) => name,
        None => {
            return Err(TelegramError::Fatal(String::from_str("No name in response")));
        },
    };
    match name.as_str() {
        Some(text) => Ok(text.clone()),
        None => Err(TelegramError::Fatal(String::from_str("name is not a string"))),
    }
}

/// The value of a [`TelegramMessage`].
pub struct MessageView {
    pub message_id: JsonValue,
    pub text: Seq<char>,
    pub username: Option<Seq<char>>,
    pub chat_id: JsonValue,
    pub chat_title: Seq<char>,
    pub chat_type: Seq<char>,
}

impl View for TelegramMessage {
    type V = MessageView;

    open spec fn view(&self) -> MessageView {
        MessageView {
            message_id: self.message_id@,
            text: self.text@,
            username: option_text(self.from.username),
            chat_id: self.chat.id@,
            chat_title: self.chat.title@,
            chat_type: self.chat.chat_type@,
        }
    }
}

/// The user name that a member holds: none where the member is missing or
/// null. `None` where the member is anything but a string.
pub open spec fn username_of(member: Option<JsonValue>) -> Option<Option<Seq<char>>> {
    match member {
        None => Some(None),
        Some(JsonValue::Null) => Some(None),
        Some(JsonValue::Str(name)) => Some(Some(name)),
        Some(_) => None,
    }
}

/// The message that a JSON document holds; `None` where a member is
/// missing or of another type.
pub open spec fn message_of(value: JsonValue) -> Option<MessageView> {
    match (value.field("message_id"@), value.field("text"@), value.field("from"@), value.field(
        "chat"@,
    )) {
        (Some(message_id), Some(JsonValue::Str(text)), Some(from), Some(chat)) => match (
            from,
            username_of(from.field("username"@)),
            chat.field("id"@),
            chat.field("title"@),
            chat.field("type"@),
        ) {
            (
                JsonValue::Object(_),
                Some(username),
                Some(chat_id),
                Some(JsonValue::Str(chat_title)),
                Some(JsonValue::Str(chat_type)),
            ) => Some(
                MessageView { message_id, text, username, chat_id, chat_title, chat_type },
            ),
            _ => None,
        },
        _ => None,
    }
}

/// What a reply to `sendMessage` means: the message that was sent, or the
/// text of a fatal error. A reply with an `error_code` is an error: its
/// `description` as JSON text, or a note that there is none.
pub open spec fn message_in(reply: Seq<char>) -> Result<MessageView, Seq<char>> {
    match json_parse(reply) {
        None => Err("Unable to parse response"@),
        Some(value) => match value.field("error_code"@) {
            Some(error_code) => match value.field("description"@) {
                Some(description) => Err(json_text(description)),
                None => Err(
                    "Error: "@ + json_text(error_code)
                        + " - Description missing in telegram API response"@,
                ),
            },
            None => match value.field("result"@) {
                None => Err("No result in response"@),
                Some(result) => match message_of(result) {
                    Some(message) => Ok(message),
                    None => Err("Unable to interpret telegram response."@),
                },
            },
        },
    }
}

/// Reads a message from a JSON document.
pub fn message_from_json(json: &Json) -> (message: Option<TelegramMessage>)
    ensures
        match message {
            Some(m) => message_of(json@) == Some(m@),
            None => message_of(json@) is None,
        },
{
    let message_id = match json.get("message_id") {
        Some(member) => member.duplicate(),
        None => {
            return None;
        },
    };
    let text = match json.get("text") {
        Some(Json::Str(text)) => text.clone(),
        _ => {
            return None;
        },
    };
    let from = match json.get("from") {
        Some(from) => from,
        None => {
            return None;
        },
    };
    let chat = match json.get("chat") {
        Some(chat) => chat,
        None => {
            return None;
        },
    };
    match from {
        Json::Object(_) => {},
        _ => {
            return None;
        },
    }
    let username = match from.get("username") {
        None => None,
        Some(Json::Null) => None,
        Some(Json::Str(name)) => Some(name.clone()),
        Some(_) => {
            return None;
        },
    };
    let id = match chat.get("id") {
        Some(id) => id.duplicate(),
        None => {
            return None;
        },
    };
    let title = match chat.get("title") {
        Some(Json::Str(title)) => title.clone(),
        _ => {
            return None;
        },
    };
    let chat_type = match chat.get("type") {
        Some(Json::Str(chat_type)) => chat_type.clone(),
        _ => {
            return None;
        },
    };
    Some(
        TelegramMessage {
            message_id,
            text,
            from: TelegramUser { username },
            chat: TelegramChat { id, title, chat_type },
        },
    )
}

/// Reads the message that was sent from a reply to `sendMessage`.
pub fn message_from_response(response_text: &str) -> (result: Result<
    TelegramMessage,
    TelegramError,
>)
    ensures
        match result {
            Ok(message) => message_in(response_text@) == Ok::<MessageView, Seq<char>>(message@),
            Err(error) => message_in(response_text@) is Err && error@
                == TelegramErrorView::Fatal(message_in(response_text@)->Err_0),
        },
{
    let json = match Json::parse(response_text) {
        Some(json) => json,
        None => {
            return Err(TelegramError::Fatal(String::from_str("Unable to parse response")));
        },
    };
    match json.get("error_code") {
        Some(error_code) => {
            let error_message = match json.get("description") {
                Some(description) => description.to_text(),
                None => String::from_str("Error: ").concat(error_code.to_text().as_str()).concat(
                    " - Description missing in telegram API response",
                ),
            };
            return Err(TelegramError::Fatal(error_message));
        },
        None => {},
    }
    match json.get("result") {
        Some(result) => match message_from_json(result) {
            Some(message) => Ok(message),
            None => Err(
                TelegramError::Fatal(String::from_str("Unable to interpret telegram response.")),
            ),
        },
        None => Err(TelegramError::Fatal(String::from_str("No result in response"))),
    }
}

/// A message as the API of the service shows it.
#[derive(Debug, PartialEq)]
pub struct TelegramMessageNode {
    pub username: String,
    pub message: String,
    pub chat_name: String,
    pub chat_id: String,
}

impl TelegramMessageNode {
    /// Shows a message: the user name, empty where there is none, the text,
    /// the title of the chat, and the id of the chat as JSON text.
    pub fn from_domain(message: TelegramMessage) -> (node: TelegramMessageNode)
        ensures
            node.username@ == match message@.username {
                Some(name) => name,
                None => Seq::<char>::empty(),
            },
            node.message@ == message@.text,
            node.chat_name@ == message@.chat_title,
            node.chat_id@ == json_text(message@.chat_id),
    {
        let chat_id = message.chat.id.to_text();
        TelegramMessageNode {
            username: match message.from.username {
                Some(name) => name,
                None => String::new(),
            },
            message: message.text,
            chat_name: message.chat.title,
            chat_id,
        }
    }
}

/// What the API of the service answers when a message was sent.
#[derive(Debug, PartialEq)]
pub enum TelegramMessageResponse {
    Response(TelegramMessageNode),
}

/// The updates in a reply to `getUpdates`, or the reason why the reply
/// holds none: the items of its `result`, which has to be an array.
pub open spec fn updates_in(reply: Seq<char>) -> Result<Seq<JsonValue>, Seq<char>> {
    match json_parse(reply) {
        None => Err("Unable to parse response"@),
        Some(value) => match value.field("result"@) {
            Some(JsonValue::Array(updates)) => Ok(updates),
            _ => Err("No result in response"@),
        },
    }
}

/// Reads the updates from a reply to `getUpdates`.
pub fn updates_from_response(response_text: &str) -> (result: Result<Vec<Json>, TelegramError>)
    ensures
        match result {
            Ok(updates) => updates_in(response_text@) == Ok::<Seq<JsonValue>, Seq<char>>(
                crate::json::items_view(updates@),
            ),
            Err(error) => updates_in(response_text@) is Err && error@ == TelegramErrorView::Fatal(
                updates_in(response_text@)->Err_0,
            ),
        },
{
    let json = match Json::parse(response_text) {
        Some(json) => json,
        None => {
            return Err(TelegramError::Fatal(String::from_str("Unable to parse response")));
        },
    };
    match json.get("result") {
        Some(Json::Array(items)) => {
            let mut updates: Vec<Json> = Vec::new();
            let mut i: usize = 0;
            while i < items.len()
                invariant
                    i <= items@.len(),
                    updates@.len() == i,
                    forall|j: int| 0 <= j < i ==> (#[trigger] updates@[j])@ == items@[j]@,
                decreases items@.len() - i,
            {
                updates.push(items[i].duplicate());
                i += 1;
            }
            proof {
                crate::json::lemma_view_of_members(Json::Array(*items));
                assert(crate::json::items_view(updates@) =~= crate::json::items_view(items@));
            }
            Ok(updates)
        },
        _ => Err(TelegramError::Fatal(String::from_str("No result in response"))),
    }
}

/// What the polling loop does with one update.
#[derive(Clone, Copy, Debug, PartialEq, Eq, Structural)]
pub struct PollStep {
    /// The id to ask updates from next.
    pub last_update_id: i64,
    /// Whether the update is handed on.
    pub forward: bool,
}

/// What the polling loop does with `update`, having asked from
/// `last_update_id`. `reads_as_update` says whether the caller could read
/// the update as one that it handles.
///
/// An update with an id moves asking on to its id where that is greater, and
/// is handed on if it reads as an update. An update without a readable id is
/// not handed on, and asking goes on one further, so that the update does
/// not come again.
pub open spec fn poll_step_of(last_update_id: i64, update: JsonValue, reads_as_update: bool)
    -> PollStep {
    match update.field("update_id"@) {
        Some(JsonValue::Int(update_id)) => PollStep {
            last_update_id: if update_id > last_update_id {
                update_id
            } else {
                last_update_id
            },
            forward: reads_as_update,
        },
        _ => PollStep {
            last_update_id: if last_update_id < i64::MAX {
                (last_update_id + 1) as i64
            } else {
                last_update_id
            },
            forward: false,
        },
    }
}

/// Decides what the polling loop does with one update.
pub fn poll_step(last_update_id: i64, update: &Json, reads_as_update: bool) -> (step: PollStep)
    ensures
        step == poll_step_of(last_update_id, update@, reads_as_update),
{
    match update.get("update_id") {
        Some(Json::Int(update_id)) => PollStep {
            last_update_id: if *update_id > last_update_id {
                *update_id
            } else {
                last_update_id
            },
            forward: reads_as_update,
        },
        _ => PollStep {
            last_update_id: if last_update_id < i64::MAX {
                last_update_id + 1
            } else {
                last_update_id
            },
            forward: false,
        },
    }
}

/// The id that asking goes on from never falls, and is at least the id of
/// the update where it has one.
pub proof fn lemma_polling_moves_on(last_update_id: i64, update: JsonValue, reads_as_update: bool)
    ensures
        poll_step_of(last_update_id, update, reads_as_update).last_update_id >= last_update_id,
        update.field("update_id"@) matches Some(JsonValue::Int(update_id)) ==> poll_step_of(
            last_update_id,
            update,
            reads_as_update,
        ).last_update_id >= update_id,
{
}

} // verus!
