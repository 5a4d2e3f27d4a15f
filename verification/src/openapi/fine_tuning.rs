//! Requests to the fine-tuned reply model and reading its answer.
use vstd::prelude::*;
use crate::error::BotError;
use crate::json::{json_quoted, json_string};
use crate::openapi::openai::OutputItem;

verus! {

/// The fine-tuned model.
pub const FINE_TUNED_MODEL: &'static str = "ft:gpt-4.1-mini-2025-04-14:personal:emochka007:BTeZ9uCW:ckpt-step-20";

/// The responses endpoint.
pub const RESPONSES_URL: &'static str = "https://api.openai.com/v1/responses";

/// A client of the fine-tuned model.
#[derive(Debug)]
pub struct FineTuningOpenAI {
    key: String,
    model_name: String,
    base_url: String,
}

/// The body of a request to a model for an input text.
pub open spec fn fine_tuning_body(model: Seq<char>, input: Seq<char>) -> Seq<char> {
    "{\"input\":"@ + json_quoted(input) + ",\"max_output_tokens\":2048,\"model\":"@ + json_quoted(model)
        + ",\"reasoning\":{},\"store\":true,\"temperature\":1,\"text\":{\"format\":{\"type\":\"text\"}},\"tools\":[],\"top_p\":1}"@
}

impl FineTuningOpenAI {
    pub closed spec fn spec_key(&self) -> Seq<char> {
        self.key@
    }

    pub closed spec fn spec_model_name(&self) -> Seq<char> {
        self.model_name@
    }

    pub closed spec fn spec_base_url(&self) -> Seq<char> {
        self.base_url@
    }

    /// A client of the fine-tuned model with the given key.
    pub fn new(key: String) -> (r: FineTuningOpenAI)
        ensures
            r.spec_key() == key@,
            r.spec_model_name() == FINE_TUNED_MODEL@,
            r.spec_base_url() == RESPONSES_URL@,
    {
        FineTuningOpenAI {
            key,
            model_name: String::from_str(FINE_TUNED_MODEL),
            base_url: String::from_str(RESPONSES_URL),
        }
    }

    /// The endpoint.
    pub fn base_url(&self) -> (r: &str)
        ensures
            r@ == self.spec_base_url(),
    {
        self.base_url.as_str()
    }

    /// The `Authorization` header.
    pub fn authorization(&self) -> (r: String)
        ensures
            r@ == "Bearer "@ + self.spec_key(),
    {
        let mut r = String::from_str("Bearer ");
        r.append(self.key.as_str());
        r
    }

    /// The body of a request for an input text.
    pub fn body(&self, input: &str) -> (r: String)
        ensures
            r@ == fine_tuning_body(self.spec_model_name(), input@),
    {
        let mut out = String::from_str("{\"input\":");
        out.append(json_string(input).as_str());
        out.append(",\"max_output_tokens\":2048,\"model\":");
        out.append(json_string(self.model_name.as_str()).as_str());
        out.append(
            ",\"reasoning\":{},\"store\":true,\"temperature\":1,\"text\":{\"format\":{\"type\":\"text\"}},\"tools\":[],\"top_p\":1}",
        );
        out
    }

    /// The model's answer: the text of the first content of the first
    /// output; an error where there is none.
    pub fn assistant_text(output: &Vec<OutputItem>) -> (r: Result<String, BotError>)
        ensures
            (output@.len() > 0 && output@[0].content@.len() > 0) ==> (r matches Ok(t) && t@
                == output@[0].content@[0].text@),
            !(output@.len() > 0 && output@[0].content@.len() > 0) ==> r == Err::<String, BotError>(
                BotError::OutputNotFound,
            ),
    {
        if output.len() == 0 {
            return Err(BotError::OutputNotFound);
        }
        let first = &output[0];
        if first.content.len() == 0 {
            return Err(BotError::OutputNotFound);
        }
        Ok(first.content[0].text.clone())
    }
}

} // verus!
