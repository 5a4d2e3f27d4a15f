//! The lifecycle statuses of tasks and profile reviews, and their texts
//! in the database.
use vstd::prelude::*;
use crate::error::BotError;
use crate::text::str_eq;

verus! {

/// Where a queued TDLib request stands.
#[derive(Debug, Clone, Copy, PartialEq, Eq, Structural)]
pub enum TaskStatus {
    Waiting,
    Pending,
    Complete,
}

/// Where a profile review stands.
#[derive(Debug, Clone, Copy, PartialEq, Eq, Structural)]
pub enum ProcessingStatus {
    Waiting,
    Pending,
    Complete,
    Failed,
    Processed,
}

/// The database text of a task status.
pub open spec fn task_status_text(s: TaskStatus) -> Seq<char> {
    match s {
        TaskStatus::Waiting => "WAITING"@,
        TaskStatus::Pending => "PENDING"@,
        TaskStatus::Complete => "COMPLETE"@,
    }
}

/// The task status written by a text, if any.
pub open spec fn task_status_parsed(s: Seq<char>) -> Option<TaskStatus> {
    if s == "WAITING"@ {
        Some(TaskStatus::Waiting)
    } else if s == "PENDING"@ {
        Some(TaskStatus::Pending)
    } else if s == "COMPLETE"@ {
        Some(TaskStatus::Complete)
    } else {
        None
    }
}

/// The database text of a review status.
pub open spec fn processing_status_text(s: ProcessingStatus) -> Seq<char> {
    match s {
        ProcessingStatus::Waiting => "WAITING"@,
        ProcessingStatus::Pending => "PENDING"@,
        ProcessingStatus::Complete => "COMPLETE"@,
        ProcessingStatus::Failed => "FAILED"@,
        ProcessingStatus::Processed => "PROCESSED"@,
    }
}

/// The review status written by a text, if any.
pub open spec fn processing_status_parsed(s: Seq<char>) -> Option<ProcessingStatus> {
    if s == "WAITING"@ {
        Some(ProcessingStatus::Waiting)
    } else if s == "PENDING"@ {
        Some(ProcessingStatus::Pending)
    } else if s == "COMPLETE"@ {
        Some(ProcessingStatus::Complete)
    } else if s == "FAILED"@ {
        Some(ProcessingStatus::Failed)
    } else if s == "PROCESSED"@ {
        Some(ProcessingStatus::Processed)
    } else {
        None
    }
}

impl TaskStatus {
    /// The database text of this status.
    pub fn to_str(&self) -> (r: String)
        ensures
            r@ == task_status_text(*self),
    {
        match self {
            TaskStatus::Waiting => String::from_str("WAITING"),
            TaskStatus::Pending => String::from_str("PENDING"),
            TaskStatus::Complete => String::from_str("COMPLETE"),
        }
    }

    /// Reads a status from its database text; fails with
    /// `UnknownTaskStatus` on any other text.
    pub fn from_str(text: &str) -> (r: Result<TaskStatus, BotError>)
        ensures
            match task_status_parsed(text@) {
                Some(s) => r == Ok::<TaskStatus, BotError>(s),
                None => r == Err::<TaskStatus, BotError>(BotError::UnknownTaskStatus),
            },
    {
        if str_eq(text, "WAITING") {
            Ok(TaskStatus::Waiting)
        } else if str_eq(text, "PENDING") {
            Ok(TaskStatus::Pending)
        } else if str_eq(text, "COMPLETE") {
            Ok(TaskStatus::Complete)
        } else {
            Err(BotError::UnknownTaskStatus)
        }
    }
}

impl ProcessingStatus {
    /// The database text of this status; never fails.
    pub fn to_str(&self) -> (r: Result<&'static str, BotError>)
        ensures
            r matches Ok(t) && t@ == processing_status_text(*self),
    {
        match self {
            ProcessingStatus::Waiting => Ok("WAITING"),
            ProcessingStatus::Pending => Ok("PENDING"),
            ProcessingStatus::Complete => Ok("COMPLETE"),
            ProcessingStatus::Failed => Ok("FAILED"),
            ProcessingStatus::Processed => Ok("PROCESSED"),
        }
    }

    /// Reads a status from its database text; fails with
    /// `UnknownProcessingStatus` on any other text.
    pub fn from_db_text(text: &str) -> (r: Result<ProcessingStatus, BotError>)
        ensures
            match processing_status_parsed(text@) {
                Some(s) => r == Ok::<ProcessingStatus, BotError>(s),
                None => r == Err::<ProcessingStatus, BotError>(BotError::UnknownProcessingStatus),
            },
    {
        if str_eq(text, "WAITING") {
            Ok(ProcessingStatus::Waiting)
        } else if str_eq(text, "PENDING") {
            Ok(ProcessingStatus::Pending)
        } else if str_eq(text, "COMPLETE") {
            Ok(ProcessingStatus::Complete)
        } else if str_eq(text, "FAILED") {
            Ok(ProcessingStatus::Failed)
        } else if str_eq(text, "PROCESSED") {
            Ok(ProcessingStatus::Processed)
        } else {
            Err(BotError::UnknownProcessingStatus)
        }
    }
}

proof fn status_texts_distinct()
    ensures
        "WAITING"@.len() == 7,
        "PENDING"@.len() == 7,
        "COMPLETE"@.len() == 8,
        "FAILED"@.len() == 6,
        "PROCESSED"@.len() == 9,
        "WAITING"@[0] != "PENDING"@[0],
{
    broadcast use vstd::string::group_string_axioms;
    reveal_strlit("WAITING");
    reveal_strlit("PENDING");
    reveal_strlit("COMPLETE");
    reveal_strlit("FAILED");
    reveal_strlit("PROCESSED");
}

/// Every task status reads back from its own text, and a text that reads
/// as a status is that status's text.
pub proof fn task_status_round_trip(s: TaskStatus, t: Seq<char>)
    ensures
        task_status_parsed(task_status_text(s)) == Some(s),
        task_status_parsed(t) matches Some(u) ==> task_status_text(u) == t,
{
    status_texts_distinct();
}

/// Every review status reads back from its own text, and a text that
/// reads as a status is that status's text.
pub proof fn processing_status_round_trip(s: ProcessingStatus, t: Seq<char>)
    ensures
        processing_status_parsed(processing_status_text(s)) == Some(s),
        processing_status_parsed(t) matches Some(u) ==> processing_status_text(u) == t,
{
    status_texts_distinct();
}

} // verus!
