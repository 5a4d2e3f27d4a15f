//! What the bot keeps of a chat, read from TDLib's `chat` objects.
use vstd::prelude::*;
use crate::entities::task::Task;
use crate::error::BotError;
use crate::ids::{is_uuid_v4, new_uuid_v4};
use crate::keys::{RequestKeys, ResponseKeys};
use crate::status::TaskStatus;
use crate::td::requests::{chat_members, get_chat_json, is_td_request, open_chat_json};

verus! {

/// The last message of a chat, as far as the bot reads it.
#[derive(Debug, Clone, Copy, PartialEq, Eq, Structural)]
pub struct TdLastMessage {
    pub id: i64,
    pub is_outgoing: bool,
}

/// A TDLib `chat`, as far as the bot reads it.
#[derive(Debug)]
pub struct TdChat {
    pub id: i64,
    pub title: String,
    pub last_read_inbox_message_id: i64,
    pub last_message: Option<TdLastMessage>,
}

/// The chat `serde_json` reads from a text as a `rust_tdlib` `Chat`, by
/// its id, title, last read incoming message and last message (id,
/// outgoing); `None` where the text is not such a chat.
pub uninterp spec fn parsed_chat(text: Seq<char>) -> Option<(i64, Seq<char>, i64, Option<(i64, bool)>)>;

/// The chat read from a TDLib `chat` text (`serde_json::from_str` into
/// `rust_tdlib::types::Chat`). Trusted: the result is `parsed_chat` of
/// the text, which depends on the text alone.
#[verifier::external_body]
pub fn parse_chat(text: &str) -> (r: Option<TdChat>)
    ensures
        match r {
            Some(c) => parsed_chat(text@) == Some(
                (
                    c.id,
                    c.title@,
                    c.last_read_inbox_message_id,
                    match c.last_message {
                        Some(m) => Some((m.id, m.is_outgoing)),
                        None => None,
                    },
                ),
            ),
            None => parsed_chat(text@) is None,
        },
{
    match serde_json::from_str::<rust_tdlib::types::Chat>(text) {
        Ok(chat) => Some(TdChat {
            id: chat.id(),
            title: chat.title().to_string(),
            last_read_inbox_message_id: chat.last_read_inbox_message_id(),
            last_message: chat.last_message().as_ref().map(
                |m| TdLastMessage { id: m.id(), is_outgoing: m.is_outgoing() },
            ),
        }),
        Err(_) => None,
    }
}

/// What the bot keeps of a chat: its last read incoming message and its
/// last received message (0 where the last message is the bot's own).
#[derive(Debug)]
pub struct ChatMeta {
    id: u128,
    chat_id: i64,
    last_read_message_id: i64,
    title: String,
    last_message_id: i64,
}

impl ChatMeta {
    pub closed spec fn spec_id(&self) -> u128 {
        self.id
    }

    pub closed spec fn spec_chat_id(&self) -> i64 {
        self.chat_id
    }

    pub closed spec fn spec_last_read_message_id(&self) -> i64 {
        self.last_read_message_id
    }

    pub closed spec fn spec_title(&self) -> Seq<char> {
        self.title@
    }

    pub closed spec fn spec_last_message_id(&self) -> i64 {
        self.last_message_id
    }

    /// The chat.
    pub fn chat_id(&self) -> (r: &i64)
        ensures
            *r == self.spec_chat_id(),
    {
        &self.chat_id
    }

    /// The last read incoming message.
    pub fn last_read_message_id(&self) -> (r: &i64)
        ensures
            *r == self.spec_last_read_message_id(),
    {
        &self.last_read_message_id
    }

    /// The last received message.
    pub fn last_message_id(&self) -> (r: &i64)
        ensures
            *r == self.spec_last_message_id(),
    {
        &self.last_message_id
    }

    /// The title.
    pub fn title(&self) -> (r: &String)
        ensures
            r@ == self.spec_title(),
    {
        &self.title
    }

    /// The id.
    pub fn id(&self) -> (r: u128)
        ensures
            r == self.spec_id(),
    {
        self.id
    }

    /// A new record with a fresh random id.
    pub fn new(chat_id: i64, last_read_message_id: i64, last_message_id: i64, title: String) -> (r:
        ChatMeta)
        ensures
            r.spec_chat_id() == chat_id,
            r.spec_last_read_message_id() == last_read_message_id,
            r.spec_last_message_id() == last_message_id,
            r.spec_title() == title@,
            is_uuid_v4(r.spec_id()),
    {
        ChatMeta { id: new_uuid_v4(), chat_id, title, last_read_message_id, last_message_id }
    }

    /// A record as read back from a chat row.
    pub fn from_row(id: u128, chat_id: i64, last_read_message_id: i64, last_message_id: i64, title: String) -> (r:
        ChatMeta)
        ensures
            r.spec_id() == id,
            r.spec_chat_id() == chat_id,
            r.spec_last_read_message_id() == last_read_message_id,
            r.spec_last_message_id() == last_message_id,
            r.spec_title() == title@,
    {
        ChatMeta { id, chat_id, title, last_read_message_id, last_message_id }
    }
}

/// What to keep of a TDLib chat: nothing for a channel (negative id), an
/// error for a chat without last message, else its record, whose last
/// received message is 0 where the last message is outgoing.
pub fn get_chat(chat: &TdChat) -> (r: Result<Option<ChatMeta>, BotError>)
    ensures
        chat.id < 0 ==> r matches Ok(None),
        chat.id >= 0 && chat.last_message is None ==> r == Err::<Option<ChatMeta>, BotError>(
            BotError::LastMessageMissing,
        ),
        chat.id >= 0 && chat.last_message is Some ==> (r matches Ok(Some(m)) && m.spec_chat_id()
            == chat.id && m.spec_last_read_message_id() == chat.last_read_inbox_message_id
            && m.spec_title() == chat.title@ && m.spec_last_message_id() == (
        if chat.last_message->0.is_outgoing {
            0
        } else {
            chat.last_message->0.id
        })),
{
    if chat.id < 0 {
        return Ok(None);
    }
    match &chat.last_message {
        Some(last_message) => {
            let mut last_received_message_id = last_message.id;
            if last_message.is_outgoing {
                last_received_message_id = 0;
            }
            let chat_meta = ChatMeta::new(
                chat.id,
                chat.last_read_inbox_message_id,
                last_received_message_id,
                chat.title.clone(),
            );
            Ok(Some(chat_meta))
        },
        None => Err(BotError::LastMessageMissing),
    }
}

/// What to keep of a TDLib `chat` text: an error where the text is not a
/// chat, else as `get_chat` decides on the chat read.
pub fn chat_record_from_json(json_str: &str) -> (r: Result<Option<ChatMeta>, BotError>)
    ensures
        match parsed_chat(json_str@) {
            None => r == Err::<Option<ChatMeta>, BotError>(BotError::MalformedJson),
            Some((id, title, last_read, last)) => if id < 0 {
                r matches Ok(None)
            } else {
                match last {
                    None => r == Err::<Option<ChatMeta>, BotError>(BotError::LastMessageMissing),
                    Some((last_id, outgoing)) => r matches Ok(Some(m)) && m.spec_chat_id() == id
                        && m.spec_last_read_message_id() == last_read && m.spec_title() == title
                        && m.spec_last_message_id() == (if outgoing {
                        0
                    } else {
                        last_id
                    }),
                }
            },
        },
{
    match parse_chat(json_str) {
        Some(chat) => get_chat(&chat),
        None => Err(BotError::MalformedJson),
    }
}

/// The task asking for a chat's details, completed by a `chat` response.
pub fn td_chat_info(chat_id: i64) -> (r: Task)
    ensures
        r.spec_request() == RequestKeys::GetChat,
        r.spec_response() == ResponseKeys::Chat,
        r.spec_status() == TaskStatus::Waiting,
        is_td_request(r.spec_message(), chat_members(chat_id), "getChat"@),
{
    let message = get_chat_json(chat_id);
    Task::new(message, RequestKeys::GetChat, ResponseKeys::Chat)
}

/// The task opening a chat, completed by an `ok` response.
pub fn td_open_chat(chat_id: i64) -> (r: Task)
    ensures
        r.spec_request() == RequestKeys::OpenChat,
        r.spec_response() == ResponseKeys::OkReply,
        r.spec_status() == TaskStatus::Waiting,
        is_td_request(r.spec_message(), chat_members(chat_id), "openChat"@),
{
    let message = open_chat_json(chat_id);
    Task::new(message, RequestKeys::OpenChat, ResponseKeys::OkReply)
}

} // verus!
