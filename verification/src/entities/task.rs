//! Queued TDLib requests, and the manager that sends the oldest waiting one.
use vstd::prelude::*;
use crate::constants::{LastRequest, update_last_request};
use crate::ids::{is_uuid_v4, new_uuid_v4};
use crate::keys::{RequestKeys, ResponseKeys};
use crate::status::TaskStatus;

verus! {

/// A TDLib request waiting to be sent, sent and awaiting its response, or
/// answered; `response` is the kind of response that completes it.
#[derive(Debug)]
pub struct Task {
    id: u128,
    message: String,
    status: TaskStatus,
    request: RequestKeys,
    response: ResponseKeys,
}

impl Task {
    pub closed spec fn spec_id(&self) -> u128 {
        self.id
    }

    pub closed spec fn spec_message(&self) -> Seq<char> {
        self.message@
    }

    pub closed spec fn spec_status(&self) -> TaskStatus {
        self.status
    }

    pub closed spec fn spec_request(&self) -> RequestKeys {
        self.request
    }

    pub closed spec fn spec_response(&self) -> ResponseKeys {
        self.response
    }

    /// A new waiting task with a fresh random id.
    pub fn new(message: String, request: RequestKeys, response: ResponseKeys) -> (r: Task)
        ensures
            r.spec_message() == message@,
            r.spec_request() == request,
            r.spec_response() == response,
            r.spec_status() == TaskStatus::Waiting,
            is_uuid_v4(r.spec_id()),
    {
        let id = new_uuid_v4();
        Task { id, message, response, request, status: TaskStatus::Waiting }
    }

    /// A task as read back from a task row.
    pub fn from_row(
        id: u128,
        message: String,
        status: TaskStatus,
        request: RequestKeys,
        response: ResponseKeys,
    ) -> (r: Task)
        ensures
            r.spec_id() == id,
            r.spec_message() == message@,
            r.spec_status() == status,
            r.spec_request() == request,
            r.spec_response() == response,
    {
        Task { id, message, status, request, response }
    }

    /// The id.
    pub fn id(&self) -> (r: u128)
        ensures
            r == self.spec_id(),
    {
        self.id
    }

    /// The request kind.
    pub fn request(&self) -> (r: &RequestKeys)
        ensures
            *r == self.spec_request(),
    {
        &self.request
    }

    /// The response kind that completes the task.
    pub fn response(&self) -> (r: &ResponseKeys)
        ensures
            *r == self.spec_response(),
    {
        &self.response
    }

    /// The request text.
    pub fn message(&self) -> (r: &String)
        ensures
            r@ == self.spec_message(),
    {
        &self.message
    }

    /// The status.
    pub fn status(&self) -> (r: TaskStatus)
        ensures
            r == self.spec_status(),
    {
        self.status
    }
}

impl Default for Task {
    /// An empty waiting task of unknown request kind, completed by a chat.
    fn default() -> (r: Task)
        ensures
            r.spec_message() == Seq::<char>::empty(),
            r.spec_status() == TaskStatus::Waiting,
            r.spec_request() == RequestKeys::Unknown,
            r.spec_response() == ResponseKeys::Chat,
    {
        Task::new(String::new(), RequestKeys::Unknown, ResponseKeys::Chat)
    }
}

/// Sends the oldest waiting task to one TDLib client.
#[derive(Debug, Clone, Copy)]
pub struct TdManager {
    client_id: i32,
}

/// What to do with a waiting task: mark it pending, then send its text
/// to the client.
pub struct SendStep {
    pub task_id: u128,
    pub client_id: i32,
    pub message: String,
}

impl TdManager {
    pub closed spec fn spec_client_id(&self) -> i32 {
        self.client_id
    }

    /// A manager for the given client.
    pub fn init(client_id: i32) -> (r: TdManager)
        ensures
            r.spec_client_id() == client_id,
    {
        TdManager { client_id }
    }

    /// Handles the oldest waiting task, if any: records its request kind
    /// as the last request and says to mark it pending and send its text;
    /// without a waiting task nothing changes.
    pub fn send_request(&self, last: &mut LastRequest, waiting: Option<Task>) -> (r: Option<SendStep>)
        ensures
            match waiting {
                Some(task) => {
                    &&& final(last)@ == task.spec_request()
                    &&& r matches Some(step) && step.task_id == task.spec_id()
                        && step.client_id == self.spec_client_id() && step.message@
                        == task.spec_message()
                },
                None => r is None && final(last)@ == old(last)@,
            },
    {
        match waiting {
            Some(task) => {
                update_last_request(last, task.request);
                Some(SendStep { task_id: task.id, client_id: self.client_id, message: task.message })
            },
            None => None,
        }
    }
}

} // verus!
