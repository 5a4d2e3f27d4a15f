//! Answering the people the bot chats with.
use vstd::prelude::*;
use crate::constants::VINCHIK_CHAT_INT;
use crate::entities::task::Task;
use crate::ids::{is_uuid_v4, new_uuid_v4};
use crate::keys::{RequestKeys, ResponseKeys};
use crate::messages::{SendMessage, text_message_json, text_message_json_of};
use crate::status::{ProcessingStatus, TaskStatus};
use crate::td::requests::{get_chats_members, is_td_request};
use crate::td::td_chats::td_get_chats;
use crate::text::{i64_to_decimal, int_decimal};

verus! {

/// A reply to write in a chat: the message received and the reply sent.
#[derive(Debug)]
pub struct ChatResponder {
    id: u128,
    status: ProcessingStatus,
    chat_id: i64,
    msg_from: String,
    msg_to: Option<String>,
}

impl ChatResponder {
    pub closed spec fn spec_status(&self) -> ProcessingStatus {
        self.status
    }

    pub closed spec fn spec_chat_id(&self) -> i64 {
        self.chat_id
    }

    pub closed spec fn spec_msg_from(&self) -> Seq<char> {
        self.msg_from@
    }

    pub closed spec fn spec_msg_to(&self) -> Option<Seq<char>> {
        match self.msg_to {
            Some(m) => Some(m@),
            None => None,
        }
    }

    /// A waiting reply to a received message, with a fresh random id.
    pub fn new(chat_id: i64, from: &str) -> (r: ChatResponder)
        ensures
            r.spec_status() == ProcessingStatus::Waiting,
            r.spec_chat_id() == chat_id,
            r.spec_msg_from() == from@,
            r.spec_msg_to() is None,
            is_uuid_v4(r.spec_id()),
    {
        ChatResponder {
            id: new_uuid_v4(),
            status: ProcessingStatus::Waiting,
            chat_id,
            msg_from: String::from_str(from),
            msg_to: None,
        }
    }

    pub closed spec fn spec_id(&self) -> u128 {
        self.id
    }

    /// A reply as stored in the database.
    pub fn from_row(
        id: u128,
        chat_id: i64,
        status: ProcessingStatus,
        msg_from: String,
        msg_to: Option<String>,
    ) -> (r: ChatResponder)
        ensures
            r.spec_id() == id,
            r.spec_status() == status,
            r.spec_chat_id() == chat_id,
            r.spec_msg_from() == msg_from@,
            r.spec_msg_to() == (match msg_to {
                Some(m) => Some(m@),
                None => None,
            }),
    {
        ChatResponder { id, status, chat_id, msg_from, msg_to }
    }

    /// The id.
    pub fn id(&self) -> (r: u128)
        ensures
            r == self.spec_id(),
    {
        self.id
    }

    /// The status.
    pub fn status(&self) -> (r: ProcessingStatus)
        ensures
            r == self.spec_status(),
    {
        self.status
    }

    /// The chat.
    pub fn chat_id(&self) -> (r: i64)
        ensures
            r == self.spec_chat_id(),
    {
        self.chat_id
    }

    /// The message received.
    pub fn msg_from(&self) -> (r: &str)
        ensures
            r@ == self.spec_msg_from(),
    {
        self.msg_from.as_str()
    }

    /// The reply sent, if any.
    pub fn msg_to(&self) -> (r: &Option<String>)
        ensures
            match *r {
                Some(m) => self.spec_msg_to() == Some(m@),
                None => self.spec_msg_to() is None,
            },
    {
        &self.msg_to
    }

    /// Whether the bot answers a chat: every chat but the dating bot's.
    pub fn responds_to(chat_id: i64) -> (r: bool)
        ensures
            r == (chat_id != VINCHIK_CHAT_INT),
    {
        chat_id != VINCHIK_CHAT_INT
    }

    /// The tasks answering a chat with the model's reply: the message to
    /// the chat, then a refresh of the chat list.
    pub fn reply_tasks(chat_id: i64, reply: &str) -> (r: Vec<Task>)
        ensures
            r@.len() == 2,
            r@[0].spec_request() == RequestKeys::SendMessage,
            r@[0].spec_response() == ResponseKeys::UpdateChatReadInbox,
            r@[0].spec_status() == TaskStatus::Waiting,
            r@[0].spec_message() == text_message_json(reply@, int_decimal(chat_id as int)),
            r@[1].spec_request() == RequestKeys::GetChats,
            r@[1].spec_response() == ResponseKeys::Chats,
            r@[1].spec_status() == TaskStatus::Waiting,
            is_td_request(r@[1].spec_message(), get_chats_members(100), "getChats"@),
    {
        let chat_id_str = i64_to_decimal(chat_id);
        let send_message = SendMessage::text_message(reply, chat_id_str.as_str());
        proof {
            text_message_json_of(send_message, reply@, chat_id_str@);
        }
        let message = send_message.to_json();
        let mut r: Vec<Task> = Vec::new();
        r.push(Task::new(message, RequestKeys::SendMessage, ResponseKeys::UpdateChatReadInbox));
        r.push(td_get_chats());
        r
    }
}

} // verus!
