//! The first version of the task queue; its tasks and manager are those of
//! `entities::task`.
use vstd::prelude::*;
pub use crate::entities::task::{Task, TdManager};

verus! {

/// The statuses of a queued request.
#[derive(Debug, Clone, Copy, PartialEq, Eq, Structural)]
#[allow(non_camel_case_types, clippy::upper_case_acronyms)]
pub enum TaskStatus {
    WAITING,
    PENDING,
    COMPLETE,
}

impl TaskStatus {
    /// The database text of this status.
    pub fn to_str(&self) -> (r: String)
        ensures
            r@ == match self {
                TaskStatus::WAITING => "WAITING"@,
                TaskStatus::PENDING => "PENDING"@,
                TaskStatus::COMPLETE => "COMPLETE"@,
            },
    {
        match self {
            TaskStatus::WAITING => String::from_str("WAITING"),
            TaskStatus::PENDING => String::from_str("PENDING"),
            TaskStatus::COMPLETE => String::from_str("COMPLETE"),
        }
    }
}

} // verus!
