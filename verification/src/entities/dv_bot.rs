//! The tasks the bot queues to talk to the dating bot.
use vstd::prelude::*;
use crate::constants::{VINCHIK_CHAT, VINCHIK_CHAT_INT};
use crate::entities::chat_meta::{ChatMeta, td_chat_info, td_open_chat};
use crate::entities::task::Task;
use crate::keys::{RequestKeys, ResponseKeys};
use crate::messages::{
    SendMessage, dislike_text, like_text, super_like_text, text_message_json, text_message_json_of,
};
use crate::status::TaskStatus;
use crate::td::requests::{chat_history_members, chat_members, get_chats_members, is_td_request};
use crate::td::td_chats::td_get_chats;
use crate::td::td_message::td_get_last_message;

verus! {

/// Whether `t` is a waiting task sending `text` to the dating bot.
pub open spec fn is_bot_message_task(t: Task, text: Seq<char>) -> bool {
    &&& t.spec_request() == RequestKeys::SendMessage
    &&& t.spec_response() == ResponseKeys::UpdateChatReadInbox
    &&& t.spec_status() == TaskStatus::Waiting
    &&& t.spec_message() == text_message_json(text, VINCHIK_CHAT@)
}

/// The dating bot.
pub struct DvBot {}

/// The task sending a text to the dating bot.
fn bot_message(text: &str) -> (r: Task)
    ensures
        is_bot_message_task(r, text@),
{
    let send_message = SendMessage::text_message(text, VINCHIK_CHAT);
    proof {
        text_message_json_of(send_message, text@, VINCHIK_CHAT@);
    }
    let message = send_message.to_json();
    Task::new(message, RequestKeys::SendMessage, ResponseKeys::UpdateChatReadInbox)
}

impl DvBot {
    /// The dating bot.
    pub fn new() -> DvBot {
        DvBot {}
    }

    /// At start: ask for all chats (their records are then kept).
    pub fn on_init(&self) -> (r: Task)
        ensures
            r.spec_request() == RequestKeys::GetChats,
            r.spec_response() == ResponseKeys::Chats,
            r.spec_status() == TaskStatus::Waiting,
            is_td_request(r.spec_message(), get_chats_members(100), "getChats"@),
    {
        td_get_chats()
    }

    /// Dislike the profile shown.
    pub fn send_dislike() -> (r: Task)
        ensures
            is_bot_message_task(r, dislike_text()),
    {
        let send_message = SendMessage::dislike(VINCHIK_CHAT);
        proof {
            text_message_json_of(send_message, dislike_text(), VINCHIK_CHAT@);
        }
        let message = send_message.to_json();
        Task::new(message, RequestKeys::SendMessage, ResponseKeys::UpdateChatReadInbox)
    }

    /// Like the profile shown.
    pub fn send_like() -> (r: Task)
        ensures
            is_bot_message_task(r, like_text()),
    {
        let send_message = SendMessage::like(VINCHIK_CHAT);
        proof {
            text_message_json_of(send_message, like_text(), VINCHIK_CHAT@);
        }
        let message = send_message.to_json();
        Task::new(message, RequestKeys::SendMessage, ResponseKeys::UpdateChatReadInbox)
    }

    /// Super-like the profile shown.
    pub fn send_superlike() -> (r: Task)
        ensures
            is_bot_message_task(r, super_like_text()),
    {
        let send_message = SendMessage::super_like(VINCHIK_CHAT);
        proof {
            text_message_json_of(send_message, super_like_text(), VINCHIK_CHAT@);
        }
        let message = send_message.to_json();
        Task::new(message, RequestKeys::SendMessage, ResponseKeys::UpdateChatReadInbox)
    }

    /// Restart the dating bot: `/start`, then `1` (show profiles).
    pub fn refresh() -> (r: Vec<Task>)
        ensures
            r@.len() == 2,
            is_bot_message_task(r@[0], "/start"@),
            is_bot_message_task(r@[1], "1"@),
    {
        let mut r: Vec<Task> = Vec::new();
        r.push(bot_message("/start"));
        r.push(bot_message("1"));
        r
    }

    /// Send a text to the dating bot.
    pub fn send_message(text: &str) -> (r: Task)
        ensures
            is_bot_message_task(r, text@),
    {
        bot_message(text)
    }

    /// Read the dating bot's last message, given its chat record.
    pub fn read_last_message(chat: &ChatMeta) -> (r: Task)
        ensures
            r.spec_request() == RequestKeys::GetChatHistory,
            r.spec_response() == ResponseKeys::Messages,
            r.spec_status() == TaskStatus::Waiting,
            is_td_request(
                r.spec_message(),
                chat_history_members(chat.spec_chat_id(), 0, 0, 1),
                "getChatHistory"@,
            ),
    {
        let limit: i32 = 1;
        td_get_last_message(*chat.chat_id(), limit)
    }

    /// Open the dating bot's chat.
    pub fn open_chat() -> (r: Task)
        ensures
            r.spec_request() == RequestKeys::OpenChat,
            r.spec_response() == ResponseKeys::OkReply,
            is_td_request(r.spec_message(), chat_members(VINCHIK_CHAT_INT), "openChat"@),
    {
        td_open_chat(VINCHIK_CHAT_INT)
    }

    /// Refresh a chat's record.
    pub fn update_bot_last_message(chat_id: i64) -> (r: Task)
        ensures
            r.spec_request() == RequestKeys::GetChat,
            r.spec_response() == ResponseKeys::Chat,
            is_td_request(r.spec_message(), chat_members(chat_id), "getChat"@),
    {
        td_chat_info(chat_id)
    }
}

} // verus!
