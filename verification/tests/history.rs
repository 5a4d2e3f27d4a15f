use altushka_bot::td::history::{history_actions, history_actions_of, parse_history};
use altushka_bot::td::td_message::{
    HistoryAction, TdFormattedText, TdMessage, TdMessageContent, TdPhotoSize, TdTextEntity, TdTextEntityType,
};
use altushka_bot::error::BotError;

fn sender() -> &'static str {
    "\"sender_id\":{\"@type\":\"messageSenderUser\",\"user_id\":1}"
}

fn photo_message(id: i64, caption: &str, sizes: &str) -> String {
    format!(
        "{{\"@type\":\"message\",\"id\":{id},\"chat_id\":1234060895,\"date\":100,{},\"content\":{{\"@type\":\"messagePhoto\",\"photo\":{{\"@type\":\"photo\",\"sizes\":[{sizes}]}},\"caption\":{{\"@type\":\"formattedText\",\"text\":\"{caption}\",\"entities\":[{{\"@type\":\"textEntity\",\"offset\":0,\"length\":1,\"type\":{{\"@type\":\"textEntityTypeTextUrl\",\"url\":\"https://a\"}}}},{{\"@type\":\"textEntity\",\"offset\":0,\"length\":1,\"type\":{{\"@type\":\"textEntityTypeBold\"}}}}]}}}}}}",
        sender()
    )
}

fn size(file_id: i32, path: &str) -> String {
    format!("{{\"@type\":\"photoSize\",\"type\":\"x\",\"photo\":{{\"@type\":\"file\",\"id\":{file_id},\"local\":{{\"@type\":\"localFile\",\"path\":\"{path}\"}},\"remote\":{{}}}},\"width\":1,\"height\":1,\"progressive_sizes\":[]}}")
}

fn text_message(id: i64, text: &str) -> String {
    format!(
        "{{\"@type\":\"message\",\"id\":{id},\"chat_id\":7,\"date\":5,{},\"content\":{{\"@type\":\"messageText\",\"text\":{{\"@type\":\"formattedText\",\"text\":\"{text}\",\"entities\":[]}}}}}}",
        sender()
    )
}

#[test]
fn history_read_from_json() {
    let sizes = format!("{},{}", size(1, "/s"), size(2, "/l"));
    let text = format!(
        "{{\"@type\":\"messages\",\"total_count\":4,\"messages\":[{},null,{},{}]}}",
        photo_message(10, "Анна, 20", &sizes),
        text_message(11, "/start"),
        photo_message(12, "Оля, 19", "")
    );
    let parsed = parse_history(&text).unwrap();
    assert_eq!(parsed.len(), 4);
    assert!(parsed[1].is_none());
    let first = parsed[0].as_ref().unwrap();
    assert_eq!(first.id, 10);
    assert_eq!(first.chat_id, 1234060895);
    assert_eq!(first.date, 100);
    match &first.content {
        TdMessageContent::Photo { caption, sizes } => {
            assert_eq!(caption.text, "Анна, 20");
            assert_eq!(caption.entities.len(), 2);
            assert_eq!(sizes.len(), 2);
            assert_eq!(sizes[1].file_id, 2);
            assert_eq!(sizes[1].local_path, "/l");
        }
        other => panic!("unexpected content {other:?}"),
    }

    let steps = history_actions(&text).unwrap();
    // The photo without sizes is left out; the null entry too.
    assert_eq!(steps.len(), 2);
    let (meta, action) = &steps[0];
    assert_eq!(meta.text(), "Анна, 20");
    assert_eq!(*meta.message_id(), 10);
    assert_eq!(meta.url(), &Some("https://a".to_string()));
    assert_eq!(meta.file_ids(), &Some(vec![2]));
    match action {
        HistoryAction::StoreAndReview { file_ids } => assert_eq!(file_ids, &vec![2]),
        other => panic!("unexpected action {other:?}"),
    }
    assert_eq!(steps[1].0.text(), "/start");
    assert!(matches!(steps[1].1, HistoryAction::Skip));

    assert_eq!(history_actions("{").err(), Some(BotError::MalformedJson));
    assert!(parse_history("{").is_none());
    assert_eq!(history_actions("{\"@type\":\"messages\",\"total_count\":0,\"messages\":[]}").unwrap().len(), 0);
}

fn caption(text: &str) -> TdFormattedText {
    TdFormattedText { text: text.to_string(), entities: vec![TdTextEntity { entity_type: TdTextEntityType::Other }] }
}

#[test]
fn history_steps_of_messages() {
    let messages = vec![
        Some(TdMessage { id: 1, chat_id: 5, date: 0, content: TdMessageContent::Video { caption: caption("clip") } }),
        Some(TdMessage { id: 2, chat_id: 5, date: 0, content: TdMessageContent::Other }),
        Some(TdMessage {
            id: 3,
            chat_id: 5,
            date: 0,
            content: TdMessageContent::Photo { caption: caption("no photo"), sizes: vec![] },
        }),
        None,
        Some(TdMessage { id: 4, chat_id: 5, date: 0, content: TdMessageContent::Text { text: caption("") } }),
        Some(TdMessage {
            id: 5,
            chat_id: 5,
            date: 0,
            content: TdMessageContent::Photo {
                caption: caption("Маша"),
                sizes: vec![TdPhotoSize { file_id: 9, local_path: String::new() }],
            },
        }),
    ];
    let steps = history_actions_of(&messages);
    let ids: Vec<i64> = steps.iter().map(|(m, _)| *m.message_id()).collect();
    assert_eq!(ids, vec![1, 2, 4, 5]);
    assert!(matches!(steps[0].1, HistoryAction::StoreAndDislike));
    assert!(matches!(steps[1].1, HistoryAction::Skip));
    assert!(matches!(steps[2].1, HistoryAction::Skip));
    match &steps[3].1 {
        HistoryAction::StoreAndReview { file_ids } => assert_eq!(file_ids, &vec![9]),
        other => panic!("unexpected action {other:?}"),
    }
    assert!(history_actions_of(&Vec::new()).is_empty());
}
