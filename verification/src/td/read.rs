//! What the bot does with an update received from TDLib: it is matched
//! with the pending task of the last request, and then routed by the pair
//! of request and response kinds.
use vstd::prelude::*;
use crate::constants::{LastRequest, get_last_request};
use crate::entities::chat_meta::td_chat_info;
use crate::entities::task::Task;
use crate::error::BotError;
use crate::json::{json_td_type, json_type_member};
use crate::keys::{RequestKeys, ResponseKeys, response_key_parsed};
use crate::status::TaskStatus;
use crate::td::requests::{chat_members, is_td_request};
use crate::text::{i64_to_decimal, int_decimal};

verus! {

/// The pending task to look for: the last request's kind and the kind of
/// the update received.
#[derive(Debug, Clone, Copy, PartialEq, Eq, Structural)]
pub struct PendingKey {
    pub request: RequestKeys,
    pub response: ResponseKeys,
}

/// The pending task to look for on an update text, given the last
/// request's kind: an error where the text is not JSON, nothing where its
/// `@type` is missing or unknown.
pub open spec fn pending_key_spec(text: Seq<char>, last: RequestKeys) -> Result<Option<PendingKey>, BotError> {
    match json_type_member(text) {
        None => Err(BotError::MalformedJson),
        Some(None) => Ok(None),
        Some(Some(t)) => match response_key_parsed(t) {
            None => Ok(None),
            Some(k) => Ok(Some(PendingKey { request: last, response: k })),
        },
    }
}

/// Reads an update: an error where it is not JSON, nothing to do where it
/// has no `@type` or one the bot does not know, else the pending task to
/// look for (the last request's kind with the update's kind).
pub fn pending_key_of(json_str: &str, last: &LastRequest) -> (r: Result<Option<PendingKey>, BotError>)
    ensures
        r == pending_key_spec(json_str@, last@),
{
    match json_td_type(json_str) {
        None => Err(BotError::MalformedJson),
        Some(None) => Ok(None),
        Some(Some(td_type)) => match ResponseKeys::from_str(td_type.as_str()) {
            Ok(response) => Ok(Some(PendingKey { request: get_last_request(last), response })),
            Err(_) => Ok(None),
        },
    }
}

/// Where a matched update goes.
#[derive(Debug, Clone, Copy, PartialEq, Eq, Structural)]
pub enum UpdateRoute {
    /// The pending task does not answer this pair: leave it.
    Skip,
    /// Complete the task; the chat list: ask for each chat's details.
    ChatList,
    /// Complete the task; a chat's history: handle its messages.
    ChatHistory,
    /// Complete the task; a chat's details: keep its record.
    ChatInfo,
    /// Complete the task; a public chat found.
    PublicChat,
    /// Complete the task; a downloaded file: move it to the profile photos.
    DownloadedFile,
    /// Complete the task; nothing more.
    Nothing,
}

/// The route of a pair of request and response kinds.
pub open spec fn route_of(request: RequestKeys, response: ResponseKeys) -> UpdateRoute {
    match (request, response) {
        (RequestKeys::GetChats, ResponseKeys::Chats) => UpdateRoute::ChatList,
        (RequestKeys::GetChatHistory, ResponseKeys::Messages) => UpdateRoute::ChatHistory,
        (RequestKeys::GetChat, ResponseKeys::Chat) => UpdateRoute::ChatInfo,
        (RequestKeys::SearchPublicChat, ResponseKeys::Chat) => UpdateRoute::PublicChat,
        (RequestKeys::DownloadFile, ResponseKeys::UpdateFile) => UpdateRoute::DownloadedFile,
        _ => UpdateRoute::Nothing,
    }
}

/// Routes an update whose pending task was found: skipped unless the task
/// is of the same request and response kinds; else the task is completed
/// and the pair decides the rest.
pub fn route_update(key: PendingKey, task: &Task) -> (r: UpdateRoute)
    ensures
        (task.spec_request() == key.request && task.spec_response() == key.response) ==> r
            == route_of(key.request, key.response),
        !(task.spec_request() == key.request && task.spec_response() == key.response) ==> r
            == UpdateRoute::Skip,
{
    if *task.request() == key.request && *task.response() == key.response {
        match (key.request, key.response) {
            (RequestKeys::GetChats, ResponseKeys::Chats) => UpdateRoute::ChatList,
            (RequestKeys::GetChatHistory, ResponseKeys::Messages) => UpdateRoute::ChatHistory,
            (RequestKeys::GetChat, ResponseKeys::Chat) => UpdateRoute::ChatInfo,
            (RequestKeys::SearchPublicChat, ResponseKeys::Chat) => UpdateRoute::PublicChat,
            (RequestKeys::DownloadFile, ResponseKeys::UpdateFile) => UpdateRoute::DownloadedFile,
            _ => UpdateRoute::Nothing,
        }
    } else {
        UpdateRoute::Skip
    }
}

/// A task just sent (its request kind is then the last one) is found and
/// completed by an update of the kind it awaits: the update's key is the
/// task's pair of kinds, and the update is routed by that pair, never
/// skipped.
pub proof fn sent_task_is_answered(task: Task, last: RequestKeys, text: Seq<char>, kind: Seq<char>)
    requires
        last == task.spec_request(),
        json_type_member(text) == Some(Some(kind)),
        response_key_parsed(kind) == Some(task.spec_response()),
    ensures
        pending_key_spec(text, last) == Ok::<Option<PendingKey>, BotError>(
            Some(PendingKey { request: task.spec_request(), response: task.spec_response() }),
        ),
        route_of(task.spec_request(), task.spec_response()) != UpdateRoute::Skip,
{
}

/// The chat ids `serde_json` reads from a text as a `rust_tdlib` `Chats`;
/// `None` where the text is not such an object.
pub uninterp spec fn parsed_chat_ids(text: Seq<char>) -> Option<Seq<i64>>;

/// The chat ids of a TDLib `chats` text (`serde_json::from_str` into
/// `rust_tdlib::types::Chats`, then `chat_ids`). Trusted: the result is
/// `parsed_chat_ids` of the text, which depends on the text alone.
#[verifier::external_body]
pub fn parse_chat_ids(text: &str) -> (r: Option<Vec<i64>>)
    ensures
        match r {
            Some(v) => parsed_chat_ids(text@) == Some(v@),
            None => parsed_chat_ids(text@) is None,
        },
{
    match serde_json::from_str::<rust_tdlib::types::Chats>(text) {
        Ok(chats) => Some(chats.chat_ids().clone()),
        Err(_) => None,
    }
}

/// For the chat list: the task asking for each chat's details, in order;
/// an error where the text is not a chat list.
pub fn chat_info_tasks(json_str: &str) -> (r: Result<Vec<Task>, BotError>)
    ensures
        match parsed_chat_ids(json_str@) {
            None => r == Err::<Vec<Task>, BotError>(BotError::MalformedJson),
            Some(ids) => r matches Ok(tasks) && tasks@.len() == ids.len() && forall|i: int|
                0 <= i < ids.len() ==> {
                    &&& (#[trigger] tasks@[i]).spec_request() == RequestKeys::GetChat
                    &&& tasks@[i].spec_response() == ResponseKeys::Chat
                    &&& tasks@[i].spec_status() == TaskStatus::Waiting
                    &&& is_td_request(tasks@[i].spec_message(), chat_members(ids[i]), "getChat"@)
                },
        },
{
    let ids = match parse_chat_ids(json_str) {
        Some(ids) => ids,
        None => {
            return Err(BotError::MalformedJson);
        },
    };
    let mut tasks: Vec<Task> = Vec::new();
    let mut i: usize = 0;
    while i < ids.len()
        invariant
            i <= ids.len(),
            parsed_chat_ids(json_str@) == Some(ids@),
            tasks@.len() == i,
            forall|j: int|
                0 <= j < i ==> {
                    &&& (#[trigger] tasks@[j]).spec_request() == RequestKeys::GetChat
                    &&& tasks@[j].spec_response() == ResponseKeys::Chat
                    &&& tasks@[j].spec_status() == TaskStatus::Waiting
                    &&& is_td_request(tasks@[j].spec_message(), chat_members(ids@[j]), "getChat"@)
                },
        decreases ids.len() - i,
    {
        tasks.push(td_chat_info(ids[i]));
        i = i + 1;
    }
    Ok(tasks)
}

/// The file id and local path `serde_json` reads from a text as a
/// `rust_tdlib` `UpdateFile`; `None` where the text is not such an update.
pub uninterp spec fn parsed_update_file(text: Seq<char>) -> Option<(i32, Seq<char>)>;

/// The file of a TDLib `updateFile` text (`serde_json::from_str` into
/// `rust_tdlib::types::UpdateFile`, then the file's id and local path).
/// Trusted: the result is `parsed_update_file` of the text, which depends
/// on the text alone.
#[verifier::external_body]
pub fn parse_update_file(text: &str) -> (r: Option<(i32, String)>)
    ensures
        match r {
            Some((id, path)) => parsed_update_file(text@) == Some((id, path@)),
            None => parsed_update_file(text@) is None,
        },
{
    match serde_json::from_str::<rust_tdlib::types::UpdateFile>(text) {
        Ok(update) => Some((update.file().id(), update.file().local().path().to_string())),
        Err(_) => None,
    }
}

/// Where a downloaded profile photo is kept.
pub open spec fn profile_image_path(file_id: i32) -> Seq<char> {
    "profile_images/"@ + int_decimal(file_id as int) + ".png"@
}

/// The path of a downloaded profile photo.
pub fn profile_image_file(file_id: i32) -> (r: String)
    ensures
        r@ == profile_image_path(file_id),
{
    let mut r = String::from_str("profile_images/");
    r.append(i64_to_decimal(file_id as i64).as_str());
    r.append(".png");
    r
}

/// For a downloaded file: the move from its local path to the profile
/// photos; nothing where the text is not a file update or the file has
/// no local path yet.
pub fn downloaded_file_move(json_str: &str) -> (r: Option<(String, String)>)
    ensures
        match parsed_update_file(json_str@) {
            None => r is None,
            Some((id, path)) => if path.len() == 0 {
                r is None
            } else {
                r matches Some((from, to)) && from@ == path && to@ == profile_image_path(id)
            },
        },
{
    match parse_update_file(json_str) {
        None => None,
        Some((id, path)) => {
            if path.as_str().is_empty() {
                None
            } else {
                let new_path = profile_image_file(id);
                Some((path, new_path))
            }
        },
    }
}


/// Each request and response pair that the bot handles reaches its own
/// handler, and only that pair does: a chat list answers `getChats`, a
/// history `getChatHistory`, a chat `getChat` (its record is kept) or the
/// public-chat search, a file update a download. Every other pair
/// completes its task and does nothing more; no matched pair is skipped.
pub proof fn routes_are_exact(request: RequestKeys, response: ResponseKeys)
    ensures
        route_of(request, response) == UpdateRoute::ChatList <==> (request == RequestKeys::GetChats
            && response == ResponseKeys::Chats),
        route_of(request, response) == UpdateRoute::ChatHistory <==> (request
            == RequestKeys::GetChatHistory && response == ResponseKeys::Messages),
        route_of(request, response) == UpdateRoute::ChatInfo <==> (request == RequestKeys::GetChat
            && response == ResponseKeys::Chat),
        route_of(request, response) == UpdateRoute::PublicChat <==> (request
            == RequestKeys::SearchPublicChat && response == ResponseKeys::Chat),
        route_of(request, response) == UpdateRoute::DownloadedFile <==> (request
            == RequestKeys::DownloadFile && response == ResponseKeys::UpdateFile),
        route_of(request, response) != UpdateRoute::Skip,
{
}

} // verus!
