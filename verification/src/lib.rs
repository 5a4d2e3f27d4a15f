//! Decision logic of a Telegram dating-bot assistant: request and response
//! keys of the TDLib protocol, task and profile-review state, message
//! classification, dialogue building for fine-tuning data, and the text
//! framing of every request the bot sends.
pub mod text;
pub mod error;
pub mod keys;
pub mod status;
pub mod json;
pub mod ids;
pub mod constants;
pub mod autoresponder;
pub mod messages;
pub mod prompts;
pub mod td;
pub mod entities;
pub mod common;
pub mod my_profile;
pub mod matches;
pub mod pg;
pub mod openapi;
pub mod file;
pub mod helpers;
pub mod input;
pub mod vault_deprecated;
pub mod auth;
pub mod superlike;
pub mod chats;
pub mod cli;
