# altushka_bot

A Telegram assistant for a dating bot: it drives a TDLib client, reads the
profiles the dating bot shows, has a language model score their photos, and
answers each profile with a like, a super like or a dislike. It also turns
exported private chats into training data for a fine-tuned model.

## Layout

- `src/` — the library, verified with Verus: the TDLib request and response
  kinds and their texts, the task queue's decisions, what is read from chats
  and messages, the profile-review steps, the actor's verdicts, the request
  bodies sent to OpenAI, the dialogue building for training data, and the
  text helpers these rest on. Calls into `serde_json`, `rust-tdlib`, `uuid`,
  `base64` and `rand` stand behind small trusted wrappers whose contracts
  are documented next to them.
- `tests/` — tests of the library, run with the outside crates linked.
- `app/` — the program around the library: PostgreSQL, the TDLib JSON
  interface, HTTP calls to OpenAI and Ollama, files, the console menu, and
  the serde forms of the library's records.
