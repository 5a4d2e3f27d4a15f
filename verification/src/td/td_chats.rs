//! Asking TDLib for the chat list.
use vstd::prelude::*;
use crate::entities::task::Task;
use crate::keys::{RequestKeys, ResponseKeys};
use crate::status::TaskStatus;
use crate::td::requests::{get_chats_json, get_chats_members, is_td_request};

verus! {

/// The task asking for (at most 100 of) the chats of the main list,
/// completed by a `chats` response.
pub fn td_get_chats() -> (r: Task)
    ensures
        r.spec_request() == RequestKeys::GetChats,
        r.spec_response() == ResponseKeys::Chats,
        r.spec_status() == TaskStatus::Waiting,
        is_td_request(r.spec_message(), get_chats_members(100), "getChats"@),
{
    let message = get_chats_json(100);
    Task::new(message, RequestKeys::GetChats, ResponseKeys::Chats)
}

} // verus!
