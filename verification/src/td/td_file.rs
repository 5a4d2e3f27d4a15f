//! Asking TDLib to download a file.
use vstd::prelude::*;
use crate::entities::task::Task;
use crate::keys::{RequestKeys, ResponseKeys};
use crate::status::TaskStatus;
use crate::td::requests::{download_file_json, download_file_members, is_td_request};

verus! {

/// The download priority of profile photos.
pub const PRIORITY: i32 = 16;

/// The byte limit of a photo download.
pub const LIMIT: i32 = 1;

/// The task downloading a file, completed by an `updateFile` update.
pub fn td_file_download(file_id: i32) -> (r: Task)
    ensures
        r.spec_request() == RequestKeys::DownloadFile,
        r.spec_response() == ResponseKeys::UpdateFile,
        r.spec_status() == TaskStatus::Waiting,
        is_td_request(r.spec_message(), download_file_members(file_id, PRIORITY, LIMIT), "downloadFile"@),
{
    let message = download_file_json(file_id, PRIORITY, LIMIT);
    Task::new(message, RequestKeys::DownloadFile, ResponseKeys::UpdateFile)
}

} // verus!
