//! The records the bot keeps: tasks, chats, reviews, actors and likes.
pub mod task;
pub mod chat_meta;
pub mod profile_reviewer;
pub mod actor;
pub mod dv_bot;
pub mod superlike;
pub mod chat_responder;
pub mod profile;
pub mod profile_match;
