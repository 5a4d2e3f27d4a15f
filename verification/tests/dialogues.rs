use altushka_bot::autoresponder::types::{
    ExportedChat, Message, TextOrTextList, TextOrTextPart, TextPart,
};
use altushka_bot::autoresponder::{
    jsonl_file_name, jsonl_text, transform_exported_chat, PrivateDialogue, PrivateMessage,
    PrivateMessageRole,
};

fn message(from: Option<&str>, text: TextOrTextList) -> Message {
    Message {
        id: 1,
        message_type: "message".to_string(),
        date: "2024-01-01T00:00:00".to_string(),
        date_unixtime: "1704067200".to_string(),
        from: from.map(|s| s.to_string()),
        from_id: None,
        text,
        text_entities: Vec::new(),
        edited: None,
        edited_unixtime: None,
        reply_to_message_id: None,
        file: None,
        file_name: None,
        file_size: None,
        photo: None,
        photo_file_size: None,
        thumbnail: None,
        thumbnail_file_size: None,
        width: None,
        height: None,
        duration_seconds: None,
        media_type: None,
        sticker_emoji: None,
        mime_type: None,
        reactions: None,
    }
}

fn single(s: &str) -> TextOrTextList {
    TextOrTextList::Single(s.to_string())
}

fn pairs(d: &PrivateDialogue) -> Vec<(String, String)> {
    d.messages().iter().map(|m| (m.content().to_string(), m.role().to_string())).collect()
}

#[test]
fn text_list_joins_parts() {
    let t = TextOrTextList::List(vec![
        TextOrTextPart::Single("see ".to_string()),
        TextOrTextPart::TextPart(TextPart {
            part_type: "link".to_string(),
            text: "https://t.me/x".to_string(),
            document_id: None,
        }),
        TextOrTextPart::Single("!".to_string()),
    ]);
    assert_eq!(t.to_string(), "see https://t.me/x!");
    assert_eq!(single("hi").to_string(), "hi");
    assert_eq!(TextOrTextList::List(Vec::new()).to_string(), "");
}

#[test]
fn dialogue_groups_by_sender_and_ends_with_assistant() {
    let chat = ExportedChat {
        name: "Alice".to_string(),
        chat_type: "personal_chat".to_string(),
        id: 7,
        messages: vec![
            message(Some("Alice"), single("hi")),
            message(Some("Alice"), single("how are you")),
            message(None, single("service message")),
            message(Some("Nikita"), single("fine")),
            message(Some("Alice"), single("cool")),
        ],
    };
    let dialogues = transform_exported_chat(&chat, "Nikita");
    assert_eq!(dialogues.len(), 10);
    let expected = vec![
        ("hi\nhow are you".to_string(), "user".to_string()),
        ("fine".to_string(), "assistant".to_string()),
        ("cool".to_string(), "user".to_string()),
        ("".to_string(), "assistant".to_string()),
    ];
    for d in &dialogues {
        assert_eq!(pairs(d), expected);
    }
}

#[test]
fn dialogue_ending_with_assistant_is_kept() {
    let chat = ExportedChat {
        name: "Bob".to_string(),
        chat_type: "personal_chat".to_string(),
        id: 8,
        messages: vec![message(Some("Bob"), single("hey")), message(Some("Nikita"), single("yo"))],
    };
    let d = &transform_exported_chat(&chat, "Nikita")[0];
    assert_eq!(
        pairs(d),
        vec![("hey".to_string(), "user".to_string()), ("yo".to_string(), "assistant".to_string())]
    );
    let empty = ExportedChat { name: "E".to_string(), chat_type: "c".to_string(), id: 9, messages: Vec::new() };
    assert!(pairs(&transform_exported_chat(&empty, "Nikita")[0]).is_empty());
}

#[test]
fn same_sender_list_text_is_appended_as_debug() {
    let parts = vec![TextOrTextPart::Single("a".to_string())];
    let expected_debug = format!("{:?}", parts);
    let chat = ExportedChat {
        name: "C".to_string(),
        chat_type: "personal_chat".to_string(),
        id: 10,
        messages: vec![
            message(Some("Nikita"), single("first")),
            message(Some("Nikita"), TextOrTextList::List(parts)),
        ],
    };
    let d = &transform_exported_chat(&chat, "Nikita")[0];
    assert_eq!(pairs(d), vec![(format!("first\n{}", expected_debug), "assistant".to_string())]);
}

#[test]
fn dialogue_editing() {
    let mut d = PrivateDialogue::new();
    assert!(d.get_last_message().is_none());
    assert!(d.check_for_last_message().is_ok());
    assert!(pairs(&d).is_empty());
    d.add_private_message(PrivateMessage::new("q".to_string(), "user".to_string()));
    if let Some(last) = d.get_last_message() {
        last.concat_text(&single("more"));
    }
    d.check_for_last_message().unwrap();
    assert_eq!(
        pairs(&d),
        vec![("q\nmore".to_string(), "user".to_string()), ("".to_string(), "assistant".to_string())]
    );
    assert_eq!(PrivateMessageRole::USER.to_role_string(), "user");
    assert_eq!(PrivateMessageRole::ASSISTANT.to_role_string(), "assistant");
}

#[test]
fn jsonl_lines() {
    assert_eq!(jsonl_text(&vec![]), "");
    assert_eq!(jsonl_text(&vec!["{}".to_string()]), "{}");
    assert_eq!(jsonl_text(&vec!["{\"a\":1}".to_string(), "{}".to_string(), "[]".to_string()]), "{\"a\":1}\n{}\n[]");
    assert_eq!(jsonl_file_name("20240101_120000"), "parsed_jsonl/20240101_120000.jsonl");
}

#[test]
fn dialogue_record_json() {
    let mut d = PrivateDialogue::new();
    assert_eq!(d.to_json(), "{\"messages\":[]}");
    d.add_private_message(PrivateMessage::new("hi \"there\"".to_string(), "user".to_string()));
    d.add_private_message(PrivateMessage::new("line\nbreak".to_string(), "assistant".to_string()));
    let json = d.to_json();
    assert_eq!(
        json,
        "{\"messages\":[{\"content\":\"hi \\\"there\\\"\",\"role\":\"user\"},{\"content\":\"line\\nbreak\",\"role\":\"assistant\"}]}"
    );
    let v: serde_json::Value = serde_json::from_str(&json).unwrap();
    assert_eq!(v["messages"][0]["content"], "hi \"there\"");
    assert_eq!(v["messages"][1]["role"], "assistant");
}

#[test]
fn dialogue_records_are_one_per_line() {
    let mut a = PrivateDialogue::new();
    a.add_private_message(PrivateMessage::new("first\nsecond".to_string(), "user".to_string()));
    a.add_private_message(PrivateMessage::new("ok".to_string(), "assistant".to_string()));
    let mut b = PrivateDialogue::new();
    b.add_private_message(PrivateMessage::new("line\r\nbreak".to_string(), "user".to_string()));
    let lines = vec![a.to_json(), b.to_json()];
    let text = jsonl_text(&lines);
    let read: Vec<String> = text.split('\n').map(|l| l.to_string()).collect();
    assert_eq!(read, lines);
}
