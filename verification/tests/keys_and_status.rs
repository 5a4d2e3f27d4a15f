use altushka_bot::error::BotError;
use altushka_bot::keys::{RequestKeys, ResponseKeys};
use altushka_bot::status::{ProcessingStatus, TaskStatus};
use altushka_bot::td::td_manager::TaskStatus as FirstTaskStatus;

#[test]
fn request_key_texts() {
    assert_eq!(RequestKeys::GetChatHistory.to_str(), "getChatHistory");
    assert_eq!(RequestKeys::SearchPublicChat.to_str(), "searchPublicChat");
    assert_eq!(RequestKeys::DownloadFile.to_str(), "downloadFile");
    assert_eq!(RequestKeys::GetChat.to_str(), "getChat");
    assert_eq!(RequestKeys::GetChats.to_str(), "getChats");
    assert_eq!(RequestKeys::Unknown.to_str(), "unknown");
    assert_eq!(RequestKeys::SendMessage.to_str(), "sendMessage");
    assert_eq!(RequestKeys::OpenChat.to_str(), "openChat");
}

#[test]
fn request_key_parsing_round_trip() {
    for k in [RequestKeys::GetChatHistory, RequestKeys::DownloadFile, RequestKeys::GetChat, RequestKeys::Unknown] {
        assert_eq!(RequestKeys::from_str(k.to_str()), Ok(k));
    }
    // the search kind is read from its misspelled text only
    assert_eq!(RequestKeys::from_str("searchPublicChat"), Ok(RequestKeys::Unknown));
    assert_eq!(RequestKeys::from_str("searchPubliChat"), Ok(RequestKeys::SearchPublicChat));
    assert_eq!(RequestKeys::from_str("getChats"), Ok(RequestKeys::Unknown));
    assert_eq!(RequestKeys::from_str("anything"), Ok(RequestKeys::Unknown));
}

#[test]
fn request_key_stored_texts() {
    assert_eq!(RequestKeys::from_db_text("getChats"), RequestKeys::GetChats);
    assert_eq!(RequestKeys::from_db_text("getChatHistory"), RequestKeys::GetChatHistory);
    assert_eq!(RequestKeys::from_db_text("sendMessage"), RequestKeys::Unknown);
}

#[test]
fn response_key_round_trip() {
    for k in [
        ResponseKeys::Messages,
        ResponseKeys::Chat,
        ResponseKeys::UpdateFile,
        ResponseKeys::Chats,
        ResponseKeys::OkReply,
        ResponseKeys::UpdateChatReadInbox,
    ] {
        assert_eq!(ResponseKeys::from_str(k.to_str().as_str()), Ok(k));
    }
    assert_eq!(ResponseKeys::OkReply.to_str(), "ok");
    assert_eq!(ResponseKeys::from_str("updateNewMessage"), Err(BotError::UnknownResponseKey));
    assert_eq!(ResponseKeys::from_str(""), Err(BotError::UnknownResponseKey));
}

#[test]
fn task_status_round_trip() {
    for s in [TaskStatus::Waiting, TaskStatus::Pending, TaskStatus::Complete] {
        assert_eq!(TaskStatus::from_str(s.to_str().as_str()), Ok(s));
    }
    assert_eq!(TaskStatus::Waiting.to_str(), "WAITING");
    assert_eq!(TaskStatus::from_str("waiting"), Err(BotError::UnknownTaskStatus));
    assert_eq!(FirstTaskStatus::PENDING.to_str(), "PENDING");
    assert_eq!(FirstTaskStatus::COMPLETE.to_str(), "COMPLETE");
    assert_eq!(FirstTaskStatus::WAITING.to_str(), "WAITING");
}

#[test]
fn processing_status_round_trip() {
    for s in [
        ProcessingStatus::Waiting,
        ProcessingStatus::Pending,
        ProcessingStatus::Complete,
        ProcessingStatus::Failed,
        ProcessingStatus::Processed,
    ] {
        let text = s.to_str().unwrap();
        assert_eq!(ProcessingStatus::from_db_text(text), Ok(s));
    }
    assert_eq!(ProcessingStatus::Failed.to_str(), Ok("FAILED"));
    assert_eq!(ProcessingStatus::from_db_text("DONE"), Err(BotError::UnknownProcessingStatus));
}
