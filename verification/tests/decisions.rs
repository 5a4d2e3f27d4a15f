use altushka_bot::constants::{get_last_request, update_last_request, LastRequest};
use altushka_bot::entities::actor::{Actor, ActorAction, ActorType, Verdict};
use altushka_bot::entities::chat_meta::{
    chat_record_from_json, get_chat, parse_chat, ChatMeta, TdChat, TdLastMessage,
};
use altushka_bot::entities::dv_bot::DvBot;
use altushka_bot::entities::profile_reviewer::{reviewer_stuck, ProfileReviewer, ReviewOutcome, StartStep};
use altushka_bot::entities::superlike::SuperLike;
use altushka_bot::entities::task::{Task, TdManager};
use altushka_bot::error::BotError;
use altushka_bot::keys::{RequestKeys, ResponseKeys};
use altushka_bot::matches::MatchAnalyzer;
use altushka_bot::status::ProcessingStatus;
use altushka_bot::td::read::{chat_info_tasks, downloaded_file_move, pending_key_of, route_update, PendingKey, UpdateRoute};
use altushka_bot::td::td_command_map::TdCommandMap;
use altushka_bot::td::td_message::{
    history_action, is_blocked_text, match_message_content, HistoryAction, MessageMeta, TdFormattedText,
    TdMessage, TdMessageContent, TdPhotoSize, TdTextEntity, TdTextEntityType,
};

fn formatted(text: &str, urls: &[&str]) -> TdFormattedText {
    let mut entities = vec![TdTextEntity { entity_type: TdTextEntityType::Other }];
    for u in urls {
        entities.push(TdTextEntity { entity_type: TdTextEntityType::TextUrl(u.to_string()) });
    }
    TdFormattedText { text: text.to_string(), entities }
}

#[test]
fn last_request_read_after_write() {
    let mut last = LastRequest::new();
    assert_eq!(get_last_request(&last), RequestKeys::Unknown);
    update_last_request(&mut last, RequestKeys::GetChat);
    assert_eq!(get_last_request(&last), RequestKeys::GetChat);
    update_last_request(&mut last, RequestKeys::GetChats);
    assert_eq!(get_last_request(&last), RequestKeys::GetChats);
}

#[test]
fn manager_sends_waiting_task() {
    let mut last = LastRequest::new();
    let manager = TdManager::init(3);
    assert!(manager.send_request(&mut last, None).is_none());
    assert_eq!(get_last_request(&last), RequestKeys::Unknown);
    let task = Task::new("{}".to_string(), RequestKeys::GetChatHistory, ResponseKeys::Messages);
    let id = task.id();
    let step = manager.send_request(&mut last, Some(task)).unwrap();
    assert_eq!(step.task_id, id);
    assert_eq!(step.client_id, 3);
    assert_eq!(step.message, "{}");
    assert_eq!(get_last_request(&last), RequestKeys::GetChatHistory);
    let d = Task::default();
    assert_eq!(*d.request(), RequestKeys::Unknown);
    assert_eq!(*d.response(), ResponseKeys::Chat);
    assert_eq!(d.message(), "");
}

#[test]
fn update_matching_and_routing() {
    let mut last = LastRequest::new();
    update_last_request(&mut last, RequestKeys::GetChats);
    assert_eq!(pending_key_of("oops", &last), Err(BotError::MalformedJson));
    assert_eq!(pending_key_of("{\"x\":1}", &last), Ok(None));
    assert_eq!(pending_key_of("{\"@type\":\"updateUser\"}", &last), Ok(None));
    let key = pending_key_of("{\"@type\":\"chats\",\"chat_ids\":[1]}", &last).unwrap().unwrap();
    assert_eq!(key, PendingKey { request: RequestKeys::GetChats, response: ResponseKeys::Chats });
    let task = Task::new("m".to_string(), RequestKeys::GetChats, ResponseKeys::Chats);
    assert_eq!(route_update(key, &task), UpdateRoute::ChatList);
    let other = Task::new("m".to_string(), RequestKeys::GetChat, ResponseKeys::Chat);
    assert_eq!(route_update(key, &other), UpdateRoute::Skip);
    let file_key = PendingKey { request: RequestKeys::DownloadFile, response: ResponseKeys::UpdateFile };
    let file_task = Task::new("m".to_string(), RequestKeys::DownloadFile, ResponseKeys::UpdateFile);
    assert_eq!(route_update(file_key, &file_task), UpdateRoute::DownloadedFile);
    let odd = PendingKey { request: RequestKeys::GetChat, response: ResponseKeys::Messages };
    let odd_task = Task::new("m".to_string(), RequestKeys::GetChat, ResponseKeys::Messages);
    assert_eq!(route_update(odd, &odd_task), UpdateRoute::Nothing);
}

#[test]
fn sent_task_is_answered_by_its_kind() {
    let mut last = LastRequest::new();
    let manager = TdManager::init(1);
    let task = DvBot::read_last_message(&ChatMeta::new(8, 1, 2, "bot".to_string()));
    let kept = Task::from_row(task.id(), task.message().clone(), task.status(), *task.request(), *task.response());
    manager.send_request(&mut last, Some(task)).unwrap();
    let key = pending_key_of("{\"@type\":\"messages\",\"total_count\":0,\"messages\":[]}", &last)
        .unwrap()
        .unwrap();
    assert_eq!(key, PendingKey { request: RequestKeys::GetChatHistory, response: ResponseKeys::Messages });
    assert_eq!(route_update(key, &kept), UpdateRoute::ChatHistory);
}

#[test]
fn chat_list_asks_each_chat() {
    let tasks = chat_info_tasks("{\"@type\":\"chats\",\"total_count\":2,\"chat_ids\":[11,-12]}").unwrap();
    assert_eq!(tasks.len(), 2);
    assert_eq!(*tasks[1].request(), RequestKeys::GetChat);
    let v: serde_json::Value = serde_json::from_str(tasks[1].message()).unwrap();
    assert_eq!(v["chat_id"], -12);
    assert_eq!(chat_info_tasks("[]").err(), Some(BotError::MalformedJson));
}

#[test]
fn downloaded_files_move_to_profile_images() {
    let update = "{\"@type\":\"updateFile\",\"file\":{\"@type\":\"file\",\"id\":42,\"local\":{\"@type\":\"localFile\",\"path\":\"/tmp/td/photo.jpg\"},\"remote\":{}}}";
    assert_eq!(
        downloaded_file_move(update),
        Some(("/tmp/td/photo.jpg".to_string(), "profile_images/42.png".to_string()))
    );
    let empty = "{\"@type\":\"updateFile\",\"file\":{\"@type\":\"file\",\"id\":42,\"local\":{\"@type\":\"localFile\",\"path\":\"\"},\"remote\":{}}}";
    assert_eq!(downloaded_file_move(empty), None);
    assert_eq!(downloaded_file_move("{"), None);
}

#[test]
fn chat_records() {
    let chat = TdChat {
        id: 5,
        title: "Alice".to_string(),
        last_read_inbox_message_id: 3,
        last_message: Some(TdLastMessage { id: 9, is_outgoing: false }),
    };
    let meta = get_chat(&chat).unwrap().unwrap();
    assert_eq!(*meta.chat_id(), 5);
    assert_eq!(*meta.last_read_message_id(), 3);
    assert_eq!(*meta.last_message_id(), 9);
    assert_eq!(meta.title(), "Alice");
    let outgoing = TdChat { last_message: Some(TdLastMessage { id: 9, is_outgoing: true }), ..chat };
    assert_eq!(*get_chat(&outgoing).unwrap().unwrap().last_message_id(), 0);
    let channel = TdChat { id: -100, title: String::new(), last_read_inbox_message_id: 0, last_message: None };
    assert!(get_chat(&channel).unwrap().is_none());
    let silent = TdChat { id: 1, title: String::new(), last_read_inbox_message_id: 0, last_message: None };
    assert_eq!(get_chat(&silent).err(), Some(BotError::LastMessageMissing));
    let last = DvBot::read_last_message(&ChatMeta::new(8, 1, 2, "bot".to_string()));
    let v: serde_json::Value = serde_json::from_str(last.message()).unwrap();
    assert_eq!(v["chat_id"], 8);
    assert_eq!(v["limit"], 1);
}

#[test]
fn chat_parsed_from_json() {
    let parsed = parse_chat("{\"@type\":\"chat\",\"id\":5,\"type\":{\"@type\":\"chatTypePrivate\",\"user_id\":5},\"title\":\"Bob\",\"permissions\":{},\"notification_settings\":{},\"video_chat\":{},\"last_read_inbox_message_id\":3}").unwrap();
    assert_eq!(parsed.id, 5);
    assert_eq!(parsed.title, "Bob");
    assert_eq!(parsed.last_read_inbox_message_id, 3);
    assert!(parsed.last_message.is_none());
    assert!(parse_chat("17").is_none());
}

#[test]
fn chat_record_read_from_json() {
    let chat = |id: i64, last: &str| {
        format!("{{\"@type\":\"chat\",\"id\":{id},\"type\":{{\"@type\":\"chatTypePrivate\",\"user_id\":5}},\"title\":\"Bob\",\"permissions\":{{}},\"notification_settings\":{{}},\"video_chat\":{{}},\"last_read_inbox_message_id\":3{last}}}")
    };
    assert_eq!(chat_record_from_json("17").err(), Some(BotError::MalformedJson));
    assert!(chat_record_from_json(&chat(-4, "")).unwrap().is_none());
    assert_eq!(chat_record_from_json(&chat(5, "")).err(), Some(BotError::LastMessageMissing));
    let last = |outgoing: bool| {
        format!(",\"last_message\":{{\"@type\":\"message\",\"id\":9,\"chat_id\":5,\"is_outgoing\":{outgoing},\"sender_id\":{{\"@type\":\"messageSenderUser\",\"user_id\":5}},\"content\":{{\"@type\":\"messageText\",\"text\":{{\"@type\":\"formattedText\",\"text\":\"hi\",\"entities\":[]}}}}}}")
    };
    let meta = chat_record_from_json(&chat(5, &last(false))).unwrap().unwrap();
    assert_eq!(*meta.chat_id(), 5);
    assert_eq!(*meta.last_read_message_id(), 3);
    assert_eq!(*meta.last_message_id(), 9);
    assert_eq!(meta.title(), "Bob");
    let meta = chat_record_from_json(&chat(5, &last(true))).unwrap().unwrap();
    assert_eq!(*meta.last_message_id(), 0);
}

#[test]
fn message_contents() {
    let photo = TdMessageContent::Photo {
        caption: formatted("Анна, 20", &["https://a", "https://b"]),
        sizes: vec![
            TdPhotoSize { file_id: 1, local_path: "s".to_string() },
            TdPhotoSize { file_id: 2, local_path: "/l".to_string() },
        ],
    };
    let p = match_message_content(&photo).unwrap();
    assert_eq!(p.text(), "Анна, 20");
    let msg = TdMessage { id: 77, chat_id: 5, date: 1000, content: photo };
    let meta = MessageMeta::from_message(&msg).unwrap();
    assert_eq!(meta.text(), "Анна, 20");
    assert_eq!(meta.url(), &Some("https://b".to_string()));
    assert_eq!(meta.file_ids(), &Some(vec![2]));
    assert_eq!(*meta.message_id(), 77);
    assert_eq!(*meta.chat_id(), 5);
    assert!(*meta.is_read());
    assert!(uuid::Uuid::parse_str(meta.id()).is_ok());
    let video = TdMessage { id: 1, chat_id: 5, date: 0, content: TdMessageContent::Video { caption: formatted("clip", &[]) } };
    let meta = MessageMeta::from_message(&video).unwrap();
    assert_eq!(meta.text(), "clip");
    assert_eq!(meta.url(), &None);
    assert_eq!(meta.file_ids(), &Some(vec![]));
    let other = TdMessage { id: 1, chat_id: 5, date: 0, content: TdMessageContent::Other };
    assert_eq!(MessageMeta::from_message(&other).unwrap().text(), "unmatched");
}

fn action(text: &str, files: Option<Vec<i32>>, superlike: bool) -> HistoryAction {
    let meta = MessageMeta::from_row("id".to_string(), 1, true, text.to_string(), 0, 5, "u".to_string());
    match files {
        None => history_action(&meta, superlike),
        Some(ids) => {
            let content = if ids.is_empty() {
                TdMessageContent::Video { caption: formatted(text, &[]) }
            } else {
                TdMessageContent::Photo {
                    caption: formatted(text, &[]),
                    sizes: ids.iter().map(|i| TdPhotoSize { file_id: *i, local_path: String::new() }).collect(),
                }
            };
            let m = MessageMeta::from_message(&TdMessage { id: 1, chat_id: 5, date: 0, content }).unwrap();
            history_action(&m, superlike)
        }
    }
}

#[test]
fn history_actions() {
    assert!(matches!(action("", None, false), HistoryAction::Skip));
    assert!(matches!(action("Так выглядит твоя анкета:", Some(vec![3]), false), HistoryAction::Skip));
    assert!(matches!(action("Маша, 21", Some(vec![3]), false), HistoryAction::Skip));
    assert!(matches!(action("Маша, двадцать", None, false), HistoryAction::Store));
    assert!(matches!(action("Маша, двадцать", None, true), HistoryAction::StoreAndAnswer));
    match action("Маша, двадцать", Some(vec![3]), false) {
        HistoryAction::StoreAndReview { file_ids } => assert_eq!(file_ids, vec![3]),
        other => panic!("unexpected {other:?}"),
    }
    assert!(matches!(action("Маша, двадцать", Some(vec![]), false), HistoryAction::StoreAndDislike));
    assert!(is_blocked_text("Слишком много ❤️ за сегодня. Приходи завтра"));
    assert!(!is_blocked_text("Катя, Москва"));
}

#[test]
fn mutual_likes() {
    let m = MessageMeta::from_row("i".to_string(), 1, true, "Есть взаимная симпатия! Пиши".to_string(), 0, 5, "https://t.me/k".to_string());
    assert!(m.is_match());
    let pm = MatchAnalyzer::match_of(&m).unwrap();
    assert_eq!(pm.url, "https://t.me/k");
    assert_eq!(pm.full_text, "Есть взаимная симпатия! Пиши");
    let n = MessageMeta::from_row("i".to_string(), 1, true, "нет".to_string(), 0, 5, "u".to_string());
    assert!(MatchAnalyzer::match_of(&n).is_none());
    assert_eq!(MatchAnalyzer::read_offsets(4), vec![1, 2, 3]);
    assert!(MatchAnalyzer::read_offsets(1).is_empty());
    assert!(MatchAnalyzer::read_offsets(-3).is_empty());
}

#[test]
fn reviews() {
    let mut r = ProfileReviewer::new(5, &"Катя".to_string(), ProcessingStatus::Pending);
    assert!(r.main_file().is_none());
    r.set_file_ids(vec![12, 13]);
    assert_eq!(r.main_file(), Some(12));
    assert_eq!(r.main_file_path(), "profile_images/12.png");
    assert!(matches!(r.start_step(true), StartStep::Review));
    match r.start_step(false) {
        StartStep::Download(t) => assert_eq!(*t.request(), RequestKeys::DownloadFile),
        other => panic!("unexpected {other:?}"),
    }
    let reviewed = format!("reviewed_images/{}.png", uuid::Uuid::from_u128(r.id()));
    match r.review_outcome(Some(" 77\n")).unwrap() {
        ReviewOutcome::Scored { score, from, to } => {
            assert_eq!(score, 77);
            assert_eq!(from, "profile_images/12.png");
            assert_eq!(to, reviewed);
        }
        other => panic!("unexpected {other:?}"),
    }
    assert_eq!(r.review_outcome(Some("seventy")).err(), Some(BotError::InvalidInteger));
    assert!(matches!(r.review_outcome(None), Ok(ReviewOutcome::Dislike)));
    assert!(ProfileReviewer::acquire(false).is_some());
    assert!(ProfileReviewer::acquire(true).is_none());
}

#[test]
fn stuck_after_three_minutes() {
    let s = 1_000_000_000u128;
    assert!(!reviewer_stuck(None, false, 500 * s));
    assert!(!reviewer_stuck(Some(0), true, 500 * s));
    assert!(!reviewer_stuck(Some(0), false, 180 * s));
    assert!(reviewer_stuck(Some(0), false, 180 * s + 1));
}

#[test]
fn actor_rounds() {
    let actor = Actor::new(ActorType::Default, 50);
    let start = actor.start_actions();
    assert_eq!(start.len(), 2);
    assert!(matches!(start[0], ActorAction::Restart));
    assert!(matches!(start[1], ActorAction::ReadLastMessage));
    assert!(actor.actor_step(false, None).is_empty());
    let stuck = actor.actor_step(true, None);
    assert_eq!(stuck.len(), 3);
    assert!(matches!(stuck[0], ActorAction::Restart));
    assert!(matches!(stuck[1], ActorAction::ReadLastMessage));
    assert!(matches!(stuck[2], ActorAction::CleanUpReviews));
    let done = ProfileReviewer::from_row(77, 5, 80, String::new(), ProcessingStatus::Complete, vec![1], 0);
    let step = actor.actor_step(false, Some(&done));
    assert_eq!(step.len(), 3);
    match &step[0] {
        ActorAction::Queue(t) => {
            let v: serde_json::Value = serde_json::from_str(t.message()).unwrap();
            assert_eq!(v["input_message_content"]["text"]["text"], "💌 / 📹");
        }
        other => panic!("unexpected action {other:?}"),
    }
    assert!(matches!(step[1], ActorAction::MarkProcessed(77)));
    assert!(matches!(step[2], ActorAction::ReadLastMessage));
    assert_eq!(actor.actor_step(true, Some(&done)).len(), 6);
    let unscored = ProfileReviewer::new(5, &String::new(), ProcessingStatus::Complete);
    assert!(actor.actor_step(false, Some(&unscored)).is_empty());
}

#[test]
fn actor_verdicts() {
    let actor = Actor::new(ActorType::Default, 50);
    let scored = |score: i32| ProfileReviewer::from_row(1, 5, score, String::new(), ProcessingStatus::Complete, vec![1], 0);
    assert_eq!(actor.verdict(&scored(50)), Some(Verdict::SuperLike));
    let like: serde_json::Value = serde_json::from_str(actor.answer_task(&scored(50)).unwrap().message()).unwrap();
    assert_eq!(like["input_message_content"]["text"]["text"], "💌 / 📹");
    let dislike: serde_json::Value = serde_json::from_str(actor.answer_task(&scored(49)).unwrap().message()).unwrap();
    assert_eq!(dislike["input_message_content"]["text"]["text"], "👎");
    assert!(actor.answer_task(&ProfileReviewer::new(5, &String::new(), ProcessingStatus::Complete)).is_none());
    assert_eq!(actor.verdict(&scored(49)), Some(Verdict::Dislike));
    assert_eq!(actor.verdict(&ProfileReviewer::new(5, &String::new(), ProcessingStatus::Complete)), None);
    assert!(actor.prompt().system.is_some());
}

#[test]
fn super_like_starters() {
    for _ in 0..20 {
        let s = SuperLike::get_starter();
        assert!(["няшка", "ты очень милая", "посоветуй аниме"].contains(&s.as_str()));
    }
    assert_eq!(SuperLike::new("hi".to_string(), 3).message(), "hi");
}

#[test]
fn command_map() {
    let map = TdCommandMap::new();
    assert_eq!(map.map().len(), 4);
    assert_eq!(map.response_for(RequestKeys::GetChats), Some(ResponseKeys::Chats));
    assert_eq!(map.response_for(RequestKeys::SearchPublicChat), Some(ResponseKeys::Chat));
    assert_eq!(map.response_for(RequestKeys::DownloadFile), None);
}
