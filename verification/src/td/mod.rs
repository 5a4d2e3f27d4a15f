//! Talking to TDLib: the requests the bot queues and what it does with
//! the updates it receives.
pub mod requests;
pub mod td_chats;
pub mod td_file;
pub mod td_message;
pub mod read;
pub mod td_command_map;
pub mod td_manager;
pub mod params;
pub mod history;
