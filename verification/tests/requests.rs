use altushka_bot::auth::qr_auth_init;
use altushka_bot::constants::{VINCHIK_CHAT, VINCHIK_CHAT_INT};
use altushka_bot::entities::chat_meta::{td_chat_info, td_open_chat};
use altushka_bot::entities::chat_responder::ChatResponder;
use altushka_bot::entities::dv_bot::DvBot;
use altushka_bot::entities::task::Task;
use altushka_bot::keys::{RequestKeys, ResponseKeys};
use altushka_bot::messages::{CustomGetMe, SendMessage};
use altushka_bot::status::TaskStatus;
use altushka_bot::td::td_chats::td_get_chats;
use altushka_bot::td::td_file::td_file_download;
use altushka_bot::td::td_message::{td_get_last_message, td_read_one_from_message_id};
use serde_json::Value;

fn value(text: &str) -> Value {
    serde_json::from_str(text).unwrap()
}

fn check_extra(v: &Value) {
    let extra = v["@extra"].as_str().unwrap();
    assert_eq!(uuid::Uuid::parse_str(extra).unwrap().get_version_num(), 4);
    assert!(v["@client_id"].is_null());
}

#[test]
fn send_message_json_text() {
    let m = SendMessage::dislike(VINCHIK_CHAT);
    assert_eq!(
        m.to_json(),
        "{\"@type\":\"sendMessage\",\"chat_id\":\"1234060895\",\"input_message_content\":{\"@type\":\"inputMessageText\",\"text\":{\"@type\":\"formattedText\",\"text\":\"👎\"}}}"
    );
    assert_eq!(SendMessage::like("5").input_message_content.text.text, "👍");
    assert_eq!(SendMessage::super_like("5").input_message_content.text.text, "💌 / 📹");
    let t = SendMessage::text_message("say \"hi\"", "42");
    let v = value(&t.to_json());
    assert_eq!(v["input_message_content"]["text"]["text"], "say \"hi\"");
    assert_eq!(v["chat_id"], "42");
}

#[test]
fn get_me_request() {
    let g = CustomGetMe::builder();
    assert_eq!(g.client_id, Some(123));
    assert_eq!(g.td_type, "getMe");
    assert!(uuid::Uuid::parse_str(g.extra.as_deref().unwrap()).is_ok());
}

fn assert_task(t: &Task, request: RequestKeys, response: ResponseKeys) -> Value {
    assert_eq!(*t.request(), request);
    assert_eq!(*t.response(), response);
    assert_eq!(t.status(), TaskStatus::Waiting);
    let v = value(t.message());
    check_extra(&v);
    v
}

#[test]
fn chat_requests() {
    let v = assert_task(&td_get_chats(), RequestKeys::GetChats, ResponseKeys::Chats);
    assert_eq!(v["@type"], "getChats");
    assert_eq!(v["limit"], 100);
    let v = assert_task(&td_chat_info(77), RequestKeys::GetChat, ResponseKeys::Chat);
    assert_eq!(v["@type"], "getChat");
    assert_eq!(v["chat_id"], 77);
    let v = assert_task(&td_open_chat(-5), RequestKeys::OpenChat, ResponseKeys::OkReply);
    assert_eq!(v["@type"], "openChat");
    assert_eq!(v["chat_id"], -5);
}

#[test]
fn history_and_file_requests() {
    let v = assert_task(&td_get_last_message(VINCHIK_CHAT_INT, 1), RequestKeys::GetChatHistory, ResponseKeys::Messages);
    assert_eq!(v["@type"], "getChatHistory");
    assert_eq!(v["chat_id"], VINCHIK_CHAT_INT);
    assert_eq!(v["from_message_id"], 0);
    assert_eq!(v["limit"], 1);
    assert_eq!(v["only_local"], false);
    let v = assert_task(&td_read_one_from_message_id(9, 1, 3), RequestKeys::GetChatHistory, ResponseKeys::Messages);
    assert_eq!(v["from_message_id"], 13981712384i64);
    assert_eq!(v["offset"], 0);
    assert_eq!(v["limit"], 3);
    let v = assert_task(&td_file_download(31), RequestKeys::DownloadFile, ResponseKeys::UpdateFile);
    assert_eq!(v["@type"], "downloadFile");
    assert_eq!(v["file_id"], 31);
    assert_eq!(v["priority"], 16);
    assert_eq!(v["limit"], 1);
    let t = td_get_chats();
    assert!(t.message().starts_with("{\"@extra\":\""));
    assert!(t.message().ends_with(",\"@client_id\":null,\"limit\":100,\"@type\":\"getChats\"}"));
}

#[test]
fn qr_login_request() {
    let v = value(&qr_auth_init());
    check_extra(&v);
    assert_eq!(v["@type"], "requestQrCodeAuthentication");
    assert_eq!(v["other_user_ids"], Value::Array(Vec::new()));
}

fn bot_text(t: &Task) -> String {
    assert_eq!(*t.request(), RequestKeys::SendMessage);
    assert_eq!(*t.response(), ResponseKeys::UpdateChatReadInbox);
    let v = value(t.message());
    assert_eq!(v["chat_id"], VINCHIK_CHAT);
    v["input_message_content"]["text"]["text"].as_str().unwrap().to_string()
}

#[test]
fn dating_bot_tasks() {
    assert_eq!(bot_text(&DvBot::send_dislike()), "👎");
    assert_eq!(bot_text(&DvBot::send_like()), "👍");
    assert_eq!(bot_text(&DvBot::send_superlike()), "💌 / 📹");
    let refresh = DvBot::refresh();
    assert_eq!(refresh.len(), 2);
    assert_eq!(bot_text(&refresh[0]), "/start");
    assert_eq!(bot_text(&refresh[1]), "1");
    assert_eq!(bot_text(&DvBot::send_message("1")), "1");
    let open = DvBot::open_chat();
    assert_eq!(*open.request(), RequestKeys::OpenChat);
    assert_eq!(value(open.message())["chat_id"], VINCHIK_CHAT_INT);
    assert_eq!(*DvBot::new().on_init().request(), RequestKeys::GetChats);
    assert_eq!(DvBot::new().on_init().status(), TaskStatus::Waiting);
    assert_eq!(value(DvBot::update_bot_last_message(4).message())["chat_id"], 4);
}

#[test]
fn chat_replies() {
    assert!(!ChatResponder::responds_to(VINCHIK_CHAT_INT));
    assert!(ChatResponder::responds_to(1));
    let tasks = ChatResponder::reply_tasks(-100, "привет");
    assert_eq!(tasks.len(), 2);
    let v = value(tasks[0].message());
    assert_eq!(v["chat_id"], "-100");
    assert_eq!(v["input_message_content"]["text"]["text"], "привет");
    assert_eq!(*tasks[1].request(), RequestKeys::GetChats);
    assert_eq!(tasks[1].status(), TaskStatus::Waiting);
}

fn with_extra(text: &str, members: &str, td_type: &str) -> String {
    let extra = value(text)["@extra"].as_str().unwrap().to_string();
    format!("{{\"@extra\":\"{extra}\",\"@client_id\":null,{members},\"@type\":\"{td_type}\"}}")
}

#[test]
fn request_texts_exact() {
    let t = td_get_chats();
    assert_eq!(t.message(), &with_extra(t.message(), "\"limit\":100", "getChats"));
    let t = td_chat_info(-77);
    assert_eq!(t.message(), &with_extra(t.message(), "\"chat_id\":-77", "getChat"));
    let t = td_open_chat(5);
    assert_eq!(t.message(), &with_extra(t.message(), "\"chat_id\":5", "openChat"));
    let t = td_read_one_from_message_id(9, 1, 3);
    assert_eq!(
        t.message(),
        &with_extra(
            t.message(),
            "\"chat_id\":9,\"from_message_id\":13981712384,\"offset\":0,\"limit\":3,\"only_local\":false",
            "getChatHistory"
        )
    );
    let t = td_file_download(31);
    assert_eq!(
        t.message(),
        &with_extra(
            t.message(),
            "\"file_id\":31,\"priority\":16,\"offset\":0,\"limit\":1,\"synchronous\":false",
            "downloadFile"
        )
    );
    let q = qr_auth_init();
    assert_eq!(q, with_extra(&q, "\"other_user_ids\":[]", "requestQrCodeAuthentication"));
}
