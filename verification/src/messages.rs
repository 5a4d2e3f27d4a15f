//! The `sendMessage` requests the bot sends to chats, and their JSON text.
use vstd::prelude::*;
use crate::ids::{is_uuid_v4, new_uuid_v4, uuid_to_string, uuid_text};
use crate::json::{json_quoted, json_string};

verus! {

/// A TDLib `sendMessage` request with a plain text.
#[derive(Debug)]
pub struct SendMessage {
    pub t: String,
    pub chat_id: String,
    pub input_message_content: InputMessageContent,
}

/// The `inputMessageText` content of a message.
#[derive(Debug)]
pub struct InputMessageContent {
    pub t: String,
    pub text: FormattedText,
}

/// A `formattedText` without entities.
#[derive(Debug)]
pub struct FormattedText {
    pub td_type: String,
    pub text: String,
}

/// A `getMe` request.
#[derive(Debug)]
pub struct CustomGetMe {
    pub extra: Option<String>,
    pub client_id: Option<i64>,
    pub td_type: String,
}

/// Whether `m` is a `sendMessage` request of the text `text` to the chat
/// `chat_id`.
pub open spec fn is_text_message(m: SendMessage, text: Seq<char>, chat_id: Seq<char>) -> bool {
    &&& m.t@ == "sendMessage"@
    &&& m.chat_id@ == chat_id
    &&& m.input_message_content.t@ == "inputMessageText"@
    &&& m.input_message_content.text.td_type@ == "formattedText"@
    &&& m.input_message_content.text.text@ == text
}

/// The text of a dislike.
pub open spec fn dislike_text() -> Seq<char> {
    "👎"@
}

/// The text of a like.
pub open spec fn like_text() -> Seq<char> {
    "👍"@
}

/// The text of a super like (a message with the like).
pub open spec fn super_like_text() -> Seq<char> {
    "💌 / 📹"@
}

/// The JSON text of a `sendMessage` request, members in declaration order.
pub open spec fn send_message_json(m: SendMessage) -> Seq<char> {
    "{\"@type\":"@ + json_quoted(m.t@) + ",\"chat_id\":"@ + json_quoted(m.chat_id@)
        + ",\"input_message_content\":{\"@type\":"@ + json_quoted(m.input_message_content.t@)
        + ",\"text\":{\"@type\":"@ + json_quoted(m.input_message_content.text.td_type@)
        + ",\"text\":"@ + json_quoted(m.input_message_content.text.text@) + "}}}"@
}

impl SendMessage {
    /// A dislike (👎) to the chat.
    pub fn dislike(chat_id: &str) -> (r: SendMessage)
        ensures
            is_text_message(r, dislike_text(), chat_id@),
    {
        SendMessage::text_message("👎", chat_id)
    }

    /// A like (👍) to the chat.
    pub fn like(chat_id: &str) -> (r: SendMessage)
        ensures
            is_text_message(r, like_text(), chat_id@),
    {
        SendMessage::text_message("👍", chat_id)
    }

    /// A super like (💌 / 📹) to the chat.
    pub fn super_like(chat_id: &str) -> (r: SendMessage)
        ensures
            is_text_message(r, super_like_text(), chat_id@),
    {
        SendMessage::text_message("💌 / 📹", chat_id)
    }

    /// A message of the given text to the chat.
    pub fn text_message(text: &str, chat_id: &str) -> (r: SendMessage)
        ensures
            is_text_message(r, text@, chat_id@),
    {
        SendMessage {
            t: String::from_str("sendMessage"),
            chat_id: String::from_str(chat_id),
            input_message_content: InputMessageContent {
                t: String::from_str("inputMessageText"),
                text: FormattedText {
                    td_type: String::from_str("formattedText"),
                    text: String::from_str(text),
                },
            },
        }
    }

    /// The JSON text of the request, as `serde_json::to_string` writes it.
    pub fn to_json(&self) -> (r: String)
        ensures
            r@ == send_message_json(*self),
    {
        let mut r = String::from_str("{\"@type\":");
        r.append(json_string(self.t.as_str()).as_str());
        r.append(",\"chat_id\":");
        r.append(json_string(self.chat_id.as_str()).as_str());
        r.append(",\"input_message_content\":{\"@type\":");
        r.append(json_string(self.input_message_content.t.as_str()).as_str());
        r.append(",\"text\":{\"@type\":");
        r.append(json_string(self.input_message_content.text.td_type.as_str()).as_str());
        r.append(",\"text\":");
        r.append(json_string(self.input_message_content.text.text.as_str()).as_str());
        r.append("}}}");
        r
    }
}

impl CustomGetMe {
    /// A `getMe` request with a fresh random `@extra` and client id 123.
    pub fn builder() -> (r: CustomGetMe)
        ensures
            r.client_id == Some(123i64),
            r.td_type@ == "getMe"@,
            r.extra matches Some(e) && exists|u: u128| is_uuid_v4(u) && e@ == uuid_text(u),
    {
        let u = new_uuid_v4();
        let extra = uuid_to_string(u);
        CustomGetMe { extra: Some(extra), client_id: Some(123), td_type: String::from_str("getMe") }
    }
}

/// The JSON text of a `sendMessage` request of `text` to `chat_id`.
pub open spec fn text_message_json(text: Seq<char>, chat_id: Seq<char>) -> Seq<char> {
    "{\"@type\":"@ + json_quoted("sendMessage"@) + ",\"chat_id\":"@ + json_quoted(chat_id)
        + ",\"input_message_content\":{\"@type\":"@ + json_quoted("inputMessageText"@)
        + ",\"text\":{\"@type\":"@ + json_quoted("formattedText"@) + ",\"text\":"@
        + json_quoted(text) + "}}}"@
}

/// The text of a request is determined by the message text and chat.
pub proof fn text_message_json_of(m: SendMessage, text: Seq<char>, chat_id: Seq<char>)
    requires
        is_text_message(m, text, chat_id),
    ensures
        send_message_json(m) == text_message_json(text, chat_id),
{
}

} // verus!
