//! The JSON texts of the TDLib requests the bot queues, written by the
//! `rust_tdlib` request types with `serde_json`.
use vstd::prelude::*;
use crate::ids::{is_uuid_v4, uuid_text};
use crate::text::int_decimal;

verus! {

/// A TDLib request object as `rust_tdlib` serialises it: the random
/// `@extra` id, a null `@client_id`, the request's own members, `@type`.
pub open spec fn td_request_text(extra: Seq<char>, members: Seq<char>, td_type: Seq<char>) -> Seq<
    char,
> {
    "{\"@extra\":\""@ + extra + "\",\"@client_id\":null,"@ + members + ",\"@type\":\""@ + td_type
        + "\"}"@
}

/// Whether `r` is the text of a request of the given type and members,
/// with some random `@extra` id.
pub open spec fn is_td_request(r: Seq<char>, members: Seq<char>, td_type: Seq<char>) -> bool {
    exists|u: u128| is_uuid_v4(u) && r == td_request_text(uuid_text(u), members, td_type)
}

/// The members of a `getChats` request.
pub open spec fn get_chats_members(limit: i32) -> Seq<char> {
    "\"limit\":"@ + int_decimal(limit as int)
}

/// The members of a request about one chat.
pub open spec fn chat_members(chat_id: i64) -> Seq<char> {
    "\"chat_id\":"@ + int_decimal(chat_id as int)
}

/// The members of a `getChatHistory` request.
pub open spec fn chat_history_members(chat_id: i64, from_message_id: i64, offset: i32, limit: i32) -> Seq<
    char,
> {
    "\"chat_id\":"@ + int_decimal(chat_id as int) + ",\"from_message_id\":"@ + int_decimal(
        from_message_id as int,
    ) + ",\"offset\":"@ + int_decimal(offset as int) + ",\"limit\":"@ + int_decimal(limit as int)
        + ",\"only_local\":false"@
}

/// The members of a `downloadFile` request.
pub open spec fn download_file_members(file_id: i32, priority: i32, limit: i32) -> Seq<char> {
    "\"file_id\":"@ + int_decimal(file_id as int) + ",\"priority\":"@ + int_decimal(priority as int)
        + ",\"offset\":0,\"limit\":"@ + int_decimal(limit as int) + ",\"synchronous\":false"@
}

/// The members of a `requestQrCodeAuthentication` request.
pub open spec fn qr_code_members() -> Seq<char> {
    "\"other_user_ids\":[]"@
}

/// `serde_json::to_string` of `GetChats::builder().limit(limit).build()`.
/// Trusted: the text is the request with its members in declaration
/// order (the default chat list is skipped) and a fresh random `@extra`.
#[verifier::external_body]
pub fn get_chats_json(limit: i32) -> (r: String)
    ensures
        is_td_request(r@, get_chats_members(limit), "getChats"@),
{
    serde_json::to_string(&rust_tdlib::types::GetChats::builder().limit(limit).build())
        .unwrap_or_default()
}

/// `serde_json::to_string` of `GetChat::builder().chat_id(chat_id).build()`.
/// Trusted: the request text with a fresh random `@extra`.
#[verifier::external_body]
pub fn get_chat_json(chat_id: i64) -> (r: String)
    ensures
        is_td_request(r@, chat_members(chat_id), "getChat"@),
{
    serde_json::to_string(&rust_tdlib::types::GetChat::builder().chat_id(chat_id).build())
        .unwrap_or_default()
}

/// `serde_json::to_string` of `OpenChat::builder().chat_id(chat_id).build()`.
/// Trusted: the request text with a fresh random `@extra`.
#[verifier::external_body]
pub fn open_chat_json(chat_id: i64) -> (r: String)
    ensures
        is_td_request(r@, chat_members(chat_id), "openChat"@),
{
    serde_json::to_string(&rust_tdlib::types::OpenChat::builder().chat_id(chat_id).build())
        .unwrap_or_default()
}

/// `serde_json::to_string` of a `GetChatHistory` built with the given
/// chat, first message, offset and limit. Trusted: the request text with
/// `only_local` false and a fresh random `@extra`.
#[verifier::external_body]
pub fn get_chat_history_json(chat_id: i64, from_message_id: i64, offset: i32, limit: i32) -> (r:
    String)
    ensures
        is_td_request(
            r@,
            chat_history_members(chat_id, from_message_id, offset, limit),
            "getChatHistory"@,
        ),
{
    serde_json::to_string(
        &rust_tdlib::types::GetChatHistory::builder().chat_id(chat_id).from_message_id(
            from_message_id,
        ).offset(offset).limit(limit).build(),
    ).unwrap_or_default()
}

/// `serde_json::to_string` of a `DownloadFile` built with the given file,
/// limit and priority. Trusted: the request text with offset 0,
/// `synchronous` false and a fresh random `@extra`.
#[verifier::external_body]
pub fn download_file_json(file_id: i32, priority: i32, limit: i32) -> (r: String)
    ensures
        is_td_request(r@, download_file_members(file_id, priority, limit), "downloadFile"@),
{
    serde_json::to_string(
        &rust_tdlib::types::DownloadFile::builder().file_id(file_id).limit(limit).priority(
            priority,
        ).build(),
    ).unwrap_or_default()
}

/// `serde_json::to_string` of `RequestQrCodeAuthentication::builder().build()`.
/// Trusted: the request text with no other users and a fresh random `@extra`.
#[verifier::external_body]
pub fn qr_code_authentication_json() -> (r: String)
    ensures
        is_td_request(r@, qr_code_members(), "requestQrCodeAuthentication"@),
{
    serde_json::to_string(&rust_tdlib::types::RequestQrCodeAuthentication::builder().build())
        .unwrap_or_default()
}

} // verus!
