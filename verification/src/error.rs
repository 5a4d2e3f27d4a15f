//! The error type of the library.
use vstd::prelude::*;

verus! {

/// Why a computation of the library failed.
#[derive(Debug, PartialEq, Eq)]
pub enum BotError {
    /// A TDLib response type that the bot does not know.
    UnknownResponseKey,
    /// A task status text that is not one of the known statuses.
    UnknownTaskStatus,
    /// A review status text that is not one of the known statuses.
    UnknownProcessingStatus,
    /// A text that is not an integer of the expected type.
    InvalidInteger,
    /// A chat that has no last message.
    LastMessageMissing,
    /// A chat completion without any choice.
    ChoiceNotFound,
    /// A fine-tuned model response without output text.
    OutputNotFound,
    /// An image file that could still not be read after the last attempt.
    ImageTimedOut { path: String },
    /// A text that is not the JSON the bot expected.
    MalformedJson,
}

} // verus!
