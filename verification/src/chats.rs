//! The first version of the chat records and chat requests; the bot uses
//! those of `entities::chat_meta`, `td::td_chats` and `td::td_message`.
pub use crate::entities::chat_meta::{ChatMeta, get_chat, td_chat_info, td_open_chat};
pub use crate::td::td_chats::td_get_chats;
pub use crate::td::td_message::td_get_last_message;
