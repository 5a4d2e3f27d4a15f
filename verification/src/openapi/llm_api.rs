//! Chat completion and embedding requests: their endpoints and bodies,
//! and the answer's text.
use vstd::prelude::*;
use crate::error::BotError;
use crate::json::{json_quoted, json_string};
use crate::openapi::openai::ChatCompletionResponse;

verus! {

/// The two OpenAI endpoints the bot uses.
#[derive(Debug, Clone, Copy, PartialEq, Eq, Structural)]
pub enum OpenAIType {
    Chat,
    Embedding,
}

/// The endpoint of a kind of request.
pub open spec fn base_url_of(t: OpenAIType) -> Seq<char> {
    match t {
        OpenAIType::Chat => "https://api.openai.com/v1/chat/completions"@,
        OpenAIType::Embedding => "https://api.openai.com/v1/embeddings"@,
    }
}

/// A client of one OpenAI endpoint with an API key.
#[derive(Debug)]
pub struct OpenAI {
    key: String,
    base_url: String,
}

/// A body with the given messages for `gpt-4o`, stored.
pub open spec fn chat_body(messages: Seq<char>) -> Seq<char> {
    "{\"messages\":["@ + messages + "],\"model\":\"gpt-4o\",\"store\":true}"@
}

/// A message with a plain content.
pub open spec fn text_message(role: Seq<char>, content: Seq<char>) -> Seq<char> {
    "{\"content\":"@ + json_quoted(content) + ",\"role\":\""@ + role + "\"}"@
}

/// A text part of a content list.
pub open spec fn text_part(text: Seq<char>) -> Seq<char> {
    "{\"text\":"@ + json_quoted(text) + ",\"type\":\"text\"}"@
}

/// An image part of a content list, by URL.
pub open spec fn image_part(url: Seq<char>) -> Seq<char> {
    "{\"image_url\":{\"url\":"@ + json_quoted(url) + "},\"type\":\"image_url\"}"@
}

/// A message whose content is a list of parts.
pub open spec fn parts_message(role: Seq<char>, parts: Seq<char>) -> Seq<char> {
    "{\"content\":["@ + parts + "],\"role\":\""@ + role + "\"}"@
}

/// The data URL of a base64 image of the given type.
pub open spec fn data_url(kind: Seq<char>, image: Seq<char>) -> Seq<char> {
    "data:image/"@ + kind + ";base64,"@ + image
}

fn push_text_message(out: &mut String, role: &str, content: &str)
    ensures
        final(out)@ == old(out)@ + text_message(role@, content@),
{
    out.append("{\"content\":");
    out.append(json_string(content).as_str());
    out.append(",\"role\":\"");
    out.append(role);
    out.append("\"}");
}

fn push_text_part(out: &mut String, text: &str)
    ensures
        final(out)@ == old(out)@ + text_part(text@),
{
    out.append("{\"text\":");
    out.append(json_string(text).as_str());
    out.append(",\"type\":\"text\"}");
}

fn push_image_part(out: &mut String, kind: &str, image: &str)
    ensures
        final(out)@ == old(out)@ + image_part(data_url(kind@, image@)),
{
    let mut url = String::from_str("data:image/");
    url.append(kind);
    url.append(";base64,");
    url.append(image);
    out.append("{\"image_url\":{\"url\":");
    out.append(json_string(url.as_str()).as_str());
    out.append("},\"type\":\"image_url\"}");
}

impl OpenAI {
    pub closed spec fn spec_key(&self) -> Seq<char> {
        self.key@
    }

    pub closed spec fn spec_base_url(&self) -> Seq<char> {
        self.base_url@
    }

    /// A client of the endpoint of the given kind with the given key.
    pub fn new(open_ai_type: OpenAIType, key: String) -> (r: OpenAI)
        ensures
            r.spec_key() == key@,
            r.spec_base_url() == base_url_of(open_ai_type),
    {
        let base_url: &str = match open_ai_type {
            OpenAIType::Chat => "https://api.openai.com/v1/chat/completions",
            OpenAIType::Embedding => "https://api.openai.com/v1/embeddings",
        };
        OpenAI { key, base_url: String::from_str(base_url) }
    }

    /// The endpoint.
    pub fn base_url(&self) -> (r: &str)
        ensures
            r@ == self.spec_base_url(),
    {
        self.base_url.as_str()
    }

    /// The `Authorization` header.
    pub fn authorization(&self) -> (r: String)
        ensures
            r@ == "Bearer "@ + self.spec_key(),
    {
        let mut r = String::from_str("Bearer ");
        r.append(self.key.as_str());
        r
    }

    /// The answer of a completion: the content of its first choice.
    pub fn parse_choice(chat_completion_response: &ChatCompletionResponse) -> (r: Result<String, BotError>)
        ensures
            chat_completion_response.choices@.len() == 0 ==> r == Err::<String, BotError>(
                BotError::ChoiceNotFound,
            ),
            chat_completion_response.choices@.len() > 0 ==> (r matches Ok(t) && t@
                == chat_completion_response.choices@[0].message.content@),
    {
        if chat_completion_response.choices.len() > 0 {
            Ok(chat_completion_response.choices[0].message.content.clone())
        } else {
            Err(BotError::ChoiceNotFound)
        }
    }

    /// The body of a request with one user message.
    pub fn user_message_body(content: &str) -> (r: String)
        ensures
            r@ == chat_body(text_message("user"@, content@)),
    {
        let mut out = String::from_str("{\"messages\":[");
        push_text_message(&mut out, "user", content);
        out.append("],\"model\":\"gpt-4o\",\"store\":true}");
        out
    }

    /// The body of a request with a user message of a text and a PNG image.
    pub fn image_with_prompt_body(user_message: &str, image: &str) -> (r: String)
        ensures
            r@ == chat_body(
                parts_message(
                    "user"@,
                    text_part(user_message@) + ","@ + image_part(data_url("png"@, image@)),
                ),
            ),
    {
        let mut out = String::from_str("{\"messages\":[");
        out.append("{\"content\":[");
        push_text_part(&mut out, user_message);
        out.append(",");
        push_image_part(&mut out, "png", image);
        out.append("],\"role\":\"");
        out.append("user");
        out.append("\"}");
        out.append("],\"model\":\"gpt-4o\",\"store\":true}");
        out
    }

    /// The body of a request with a system message and a user message.
    pub fn sys_message_body(sys_message: &str, user_message: &str) -> (r: String)
        ensures
            r@ == chat_body(
                text_message("system"@, sys_message@) + ","@ + text_message("user"@, user_message@),
            ),
    {
        let mut out = String::from_str("{\"messages\":[");
        push_text_message(&mut out, "system", sys_message);
        out.append(",");
        push_text_message(&mut out, "user", user_message);
        out.append("],\"model\":\"gpt-4o\",\"store\":true}");
        out
    }

    /// The body of a request with a system message and a user message of a
    /// text, the PNG image to judge and the JPEG reference image.
    pub fn image_with_ref_image_body(
        sys_message: &str,
        user_message: &str,
        image: &str,
        reference: &str,
    ) -> (r: String)
        ensures
            r@ == chat_body(
                text_message("system"@, sys_message@) + ","@ + parts_message(
                    "user"@,
                    text_part(user_message@) + ","@ + image_part(data_url("png"@, image@)) + ","@
                        + image_part(data_url("jpg"@, reference@)),
                ),
            ),
    {
        let mut out = String::from_str("{\"messages\":[");
        push_text_message(&mut out, "system", sys_message);
        out.append(",");
        out.append("{\"content\":[");
        push_text_part(&mut out, user_message);
        out.append(",");
        push_image_part(&mut out, "png", image);
        out.append(",");
        push_image_part(&mut out, "jpg", reference);
        out.append("],\"role\":\"");
        out.append("user");
        out.append("\"}");
        out.append("],\"model\":\"gpt-4o\",\"store\":true}");
        out
    }

    /// The body of an embedding request for a text.
    pub fn embeddings_body(image_description: &str) -> (r: String)
        ensures
            r@ == "{\"input\":"@ + json_quoted(image_description@)
                + ",\"model\":\"text-embedding-3-small\"}"@,
    {
        let mut out = String::from_str("{\"input\":");
        out.append(json_string(image_description).as_str());
        out.append(",\"model\":\"text-embedding-3-small\"}");
        out
    }
}

} // verus!
