use altushka_bot::error::BotError;
use altushka_bot::input::match_input;
use altushka_bot::my_profile::MyProfile;
use altushka_bot::openapi::fine_tuning::{FineTuningOpenAI, FINE_TUNED_MODEL};
use altushka_bot::openapi::llm_api::{OpenAI, OpenAIType};
use altushka_bot::openapi::openai::{ChatCompletionResponse, Choice, ContentItem, Message, OutputItem};
use altushka_bot::pg::pg::PgConnect;
use altushka_bot::prompts::{Prompt, CHAT_RESPONDER_HEAD, CHAT_RESPONDER_TAIL};
use altushka_bot::td::params::{init_tdlib_params, tdlib_params};
use altushka_bot::helpers::UpdateAuthorizationState;
use altushka_bot::entities::profile::Profile;
use serde_json::Value;

#[test]
fn pg_settings() {
    let mut pg = PgConnect::from_env_values("db".into(), "pw".into(), "localhost".into(), "bot".into(), "5432".into()).unwrap();
    assert_eq!(pg.connection_string(), "host=localhost user=bot password=pw dbname=db port=5432");
    pg.host("h".into()).user("u".into()).password("p".into()).dbname("d".into());
    assert_eq!(pg.connection_string(), "host=h user=u password=p dbname=d port=5432");
    assert!(pg.port("70000".into()).is_err());
    assert_eq!(pg.get_port(), 5432);
    pg.port("1".into()).unwrap();
    assert_eq!(pg.get_port(), 1);
    assert_eq!(
        PgConnect::from_env_values("db".into(), "pw".into(), "h".into(), "u".into(), "x".into()).err(),
        Some(BotError::InvalidInteger)
    );
}

#[test]
fn tdlib_parameters() {
    let text = init_tdlib_params("/srv/bot", "SECRET-REDACTED".to_string(), "12345").unwrap();
    let v: Value = serde_json::from_str(&text).unwrap();
    assert_eq!(v["@type"], "setTdlibParameters");
    assert_eq!(v["api_id"], 12345);
    assert_eq!(v["api_hash"], "SECRET-REDACTED");
    assert_eq!(v["database_directory"], "/srv/bot/td/tdlib_artefacts");
    assert!(v["files_directory"].is_null());
    assert_eq!(v["use_chat_info_database"], true);
    assert_eq!(v["device_model"], "MacBook Pro");
    let p = tdlib_params("/r", "h".to_string(), "7").unwrap();
    let opt = |o: &Option<String>| o.clone().map(Value::String).unwrap_or(Value::Null);
    let mut m = serde_json::Map::new();
    m.insert("use_test_dc".to_string(), Value::Bool(p.use_test_dc));
    m.insert("database_directory".to_string(), opt(&p.database_directory));
    m.insert("files_directory".to_string(), opt(&p.files_directory));
    m.insert("use_file_database".to_string(), Value::Bool(p.use_file_database));
    m.insert("use_chat_info_database".to_string(), Value::Bool(p.use_chat_info_database));
    m.insert("use_message_database".to_string(), Value::Bool(p.use_message_database));
    m.insert("use_secret_chats".to_string(), Value::Bool(p.use_secret_chats));
    m.insert("api_id".to_string(), Value::from(p.api_id));
    m.insert("api_hash".to_string(), Value::String(p.api_hash.clone()));
    m.insert("system_language_code".to_string(), Value::String(p.system_language_code.clone()));
    m.insert("device_model".to_string(), Value::String(p.device_model.clone()));
    m.insert("system_version".to_string(), opt(&p.system_version));
    m.insert("application_version".to_string(), Value::String(p.application_version.clone()));
    m.insert("enable_storage_optimizer".to_string(), Value::Bool(p.enable_storage_optimizer));
    m.insert("ignore_file_names".to_string(), Value::Bool(p.ignore_file_names));
    m.insert("@type".to_string(), Value::String("setTdlibParameters".to_string()));
    assert_eq!(p.to_json(), Value::Object(m).to_string());
    assert_eq!(init_tdlib_params("/r", "h".to_string(), "abc").err(), Some(BotError::InvalidInteger));
}

#[test]
fn openai_requests() {
    let chat = OpenAI::new(OpenAIType::Chat, "k".to_string());
    assert_eq!(chat.base_url(), "https://api.openai.com/v1/chat/completions");
    assert_eq!(chat.authorization(), "Bearer k");
    assert_eq!(OpenAI::new(OpenAIType::Embedding, "k".to_string()).base_url(), "https://api.openai.com/v1/embeddings");
    let body: Value = serde_json::from_str(&OpenAI::user_message_body("hi \"there\"")).unwrap();
    assert_eq!(body["model"], "gpt-4o");
    assert_eq!(body["store"], true);
    assert_eq!(body["messages"][0]["role"], "user");
    assert_eq!(body["messages"][0]["content"], "hi \"there\"");
    let body: Value = serde_json::from_str(&OpenAI::image_with_prompt_body("describe", "QUJD")).unwrap();
    assert_eq!(body["messages"][0]["content"][0]["text"], "describe");
    assert_eq!(body["messages"][0]["content"][1]["image_url"]["url"], "data:image/png;base64,QUJD");
    let body: Value = serde_json::from_str(&OpenAI::sys_message_body("sys", "usr")).unwrap();
    assert_eq!(body["messages"][0]["role"], "system");
    assert_eq!(body["messages"][1]["content"], "usr");
    let body: Value = serde_json::from_str(&OpenAI::image_with_ref_image_body("s", "u", "AA", "BB")).unwrap();
    assert_eq!(body["messages"][1]["content"][2]["image_url"]["url"], "data:image/jpg;base64,BB");
    let body: Value = serde_json::from_str(&OpenAI::embeddings_body("desc")).unwrap();
    assert_eq!(body["model"], "text-embedding-3-small");
    assert_eq!(body["input"], "desc");
}

#[test]
fn openai_answers() {
    let empty = ChatCompletionResponse { choices: vec![] };
    assert_eq!(OpenAI::parse_choice(&empty).err(), Some(BotError::ChoiceNotFound));
    let one = ChatCompletionResponse {
        choices: vec![Choice {
            index: 0,
            message: Message { role: "assistant".to_string(), content: "42".to_string() },
            finish_reason: "stop".to_string(),
        }],
    };
    assert_eq!(OpenAI::parse_choice(&one).unwrap(), "42");
    let out = vec![OutputItem {
        id: "o".to_string(),
        output_type: "message".to_string(),
        status: "completed".to_string(),
        content: vec![ContentItem { content_type: "output_text".to_string(), text: "привет".to_string() }],
        role: "assistant".to_string(),
    }];
    assert_eq!(FineTuningOpenAI::assistant_text(&out).unwrap(), "привет");
    assert_eq!(FineTuningOpenAI::assistant_text(&vec![]).err(), Some(BotError::OutputNotFound));
    let ft = FineTuningOpenAI::new("key".to_string());
    let body: Value = serde_json::from_str(&ft.body("yo")).unwrap();
    assert_eq!(body["model"], FINE_TUNED_MODEL);
    assert_eq!(body["max_output_tokens"], 2048);
    assert_eq!(body["input"], "yo");
    assert_eq!(ft.base_url(), "https://api.openai.com/v1/responses");
}

#[test]
fn prompts_and_profiles() {
    let p = Prompt::chat_responder("Как дела?");
    assert!(p.system.is_none());
    assert_eq!(p.user, format!("{}Как дела?{}", CHAT_RESPONDER_HEAD, CHAT_RESPONDER_TAIL));
    assert!(p.user.contains("Respond to this particular message -> (Как дела?);"));
    let a = Prompt::analyze_alt();
    assert_eq!(a.system.as_deref(), Some(a.user.as_str()));
    assert!(a.user.contains("only-digit"));
    let g = Prompt::general();
    assert!(g.user.starts_with("Analyze the provided image to determine if the depicted subject is a genuine human."));
    assert!(Prompt::image_description().starts_with("Analyze the image I provide"));
    assert!(match_input("anything".to_string().as_str()).is_ok());
    assert_eq!(UpdateAuthorizationState::new("tg://login?token=x".to_string()).link(), "tg://login?token=x");
    let _ = MyProfile::new();
    let _ = Profile::_new();
}
