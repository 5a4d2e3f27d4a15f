//! Requests to the OpenAI API and reading its answers.
pub mod fine_tuning;
pub mod llm_api;
pub mod openai;
