//! The parts of OpenAI's answers that the bot reads.
use vstd::prelude::*;

verus! {

/// A chat completion: its choices in order.
#[derive(Debug)]
pub struct ChatCompletionResponse {
    pub choices: Vec<Choice>,
}

/// One choice of a chat completion.
#[derive(Debug)]
pub struct Choice {
    pub index: i32,
    pub message: Message,
    pub finish_reason: String,
}

/// The message of a choice.
#[derive(Debug)]
pub struct Message {
    pub role: String,
    pub content: String,
}

/// An embedding request's token usage.
#[derive(Debug)]
pub struct EmbeddingUsage {
    pub prompt_tokens: i32,
    pub total_tokens: i32,
}

/// One output of a fine-tuned model's response.
#[derive(Debug)]
pub struct OutputItem {
    pub id: String,
    pub output_type: String,
    pub status: String,
    pub content: Vec<ContentItem>,
    pub role: String,
}

/// One content part of an output.
#[derive(Debug)]
pub struct ContentItem {
    pub content_type: String,
    pub text: String,
}

/// The text settings of a response.
#[derive(Debug)]
pub struct TextField {
    pub format: TextFormat,
}

/// The text format of a response.
#[derive(Debug)]
pub struct TextFormat {
    pub format_type: String,
}

/// A response's token usage.
#[derive(Debug)]
pub struct Usage {
    pub input_tokens: u32,
    pub input_tokens_details: InputTokensDetails,
    pub output_tokens: u32,
    pub output_tokens_details: OutputTokensDetails,
    pub total_tokens: u32,
}

/// Details of the input tokens.
#[derive(Debug)]
pub struct InputTokensDetails {
    pub cached_tokens: u32,
}

/// Details of the output tokens.
#[derive(Debug)]
pub struct OutputTokensDetails {
    pub reasoning_tokens: u32,
}

} // verus!
