//! The TDLib request and response kinds that tasks are keyed by, and
//! their texts in TDLib's `@type` field and in the task table.
use vstd::prelude::*;
use crate::error::BotError;
use crate::text::str_eq;

verus! {

/// The kind of a request sent to TDLib.
#[derive(Debug, Clone, Copy, PartialEq, Eq, Hash, Structural)]
pub enum RequestKeys {
    GetChatHistory,
    SearchPublicChat,
    DownloadFile,
    GetChat,
    GetChats,
    Unknown,
    SendMessage,
    OpenChat,
}

/// The kind of a response (or update) received from TDLib.
#[derive(Debug, Clone, Copy, PartialEq, Eq, Hash, Structural)]
pub enum ResponseKeys {
    Messages,
    Chat,
    UpdateFile,
    Chats,
    OkReply,
    UpdateChatReadInbox,
}

/// The text of a request kind.
pub open spec fn request_key_text(k: RequestKeys) -> Seq<char> {
    match k {
        RequestKeys::GetChatHistory => "getChatHistory"@,
        RequestKeys::DownloadFile => "downloadFile"@,
        RequestKeys::GetChat => "getChat"@,
        RequestKeys::SearchPublicChat => "searchPublicChat"@,
        RequestKeys::Unknown => "unknown"@,
        RequestKeys::GetChats => "getChats"@,
        RequestKeys::SendMessage => "sendMessage"@,
        RequestKeys::OpenChat => "openChat"@,
    }
}

/// The request kind that `RequestKeys::from_str` reads from a text; every
/// text it does not know (`"getChats"` among them) reads as `Unknown`, and
/// the search kind is read from the text `"searchPubliChat"`.
pub open spec fn request_key_parsed(s: Seq<char>) -> RequestKeys {
    if s == "getChatHistory"@ {
        RequestKeys::GetChatHistory
    } else if s == "downloadFile"@ {
        RequestKeys::DownloadFile
    } else if s == "getChat"@ {
        RequestKeys::GetChat
    } else if s == "searchPubliChat"@ {
        RequestKeys::SearchPublicChat
    } else {
        RequestKeys::Unknown
    }
}

/// The request kind that a task row's text stands for: as
/// `request_key_parsed`, and `"getChats"` reads as `GetChats`.
pub open spec fn request_key_stored(s: Seq<char>) -> RequestKeys {
    if s == "getChats"@ {
        RequestKeys::GetChats
    } else {
        request_key_parsed(s)
    }
}

/// The text of a response kind.
pub open spec fn response_key_text(k: ResponseKeys) -> Seq<char> {
    match k {
        ResponseKeys::Messages => "messages"@,
        ResponseKeys::Chat => "chat"@,
        ResponseKeys::UpdateFile => "updateFile"@,
        ResponseKeys::Chats => "chats"@,
        ResponseKeys::UpdateChatReadInbox => "updateChatReadInbox"@,
        ResponseKeys::OkReply => "ok"@,
    }
}

/// The response kind written by a text, if any.
pub open spec fn response_key_parsed(s: Seq<char>) -> Option<ResponseKeys> {
    if s == "chats"@ {
        Some(ResponseKeys::Chats)
    } else if s == "messages"@ {
        Some(ResponseKeys::Messages)
    } else if s == "chat"@ {
        Some(ResponseKeys::Chat)
    } else if s == "updateFile"@ {
        Some(ResponseKeys::UpdateFile)
    } else if s == "updateChatReadInbox"@ {
        Some(ResponseKeys::UpdateChatReadInbox)
    } else if s == "ok"@ {
        Some(ResponseKeys::OkReply)
    } else {
        None
    }
}

impl RequestKeys {
    /// The text of this request kind.
    pub fn to_str(&self) -> (r: &'static str)
        ensures
            r@ == request_key_text(*self),
    {
        match self {
            RequestKeys::GetChatHistory => "getChatHistory",
            RequestKeys::DownloadFile => "downloadFile",
            RequestKeys::GetChat => "getChat",
            RequestKeys::SearchPublicChat => "searchPublicChat",
            RequestKeys::Unknown => "unknown",
            RequestKeys::GetChats => "getChats",
            RequestKeys::SendMessage => "sendMessage",
            RequestKeys::OpenChat => "openChat",
        }
    }

    /// Reads a request kind from a text; never fails.
    pub fn from_str(data: &str) -> (r: Result<RequestKeys, BotError>)
        ensures
            r == Ok::<RequestKeys, BotError>(request_key_parsed(data@)),
    {
        if str_eq(data, "getChatHistory") {
            Ok(RequestKeys::GetChatHistory)
        } else if str_eq(data, "downloadFile") {
            Ok(RequestKeys::DownloadFile)
        } else if str_eq(data, "getChat") {
            Ok(RequestKeys::GetChat)
        } else if str_eq(data, "searchPubliChat") {
            Ok(RequestKeys::SearchPublicChat)
        } else {
            Ok(RequestKeys::Unknown)
        }
    }

    /// Reads a request kind from the text stored in a task row.
    pub fn from_db_text(data: &str) -> (r: RequestKeys)
        ensures
            r == request_key_stored(data@),
    {
        if str_eq(data, "getChats") {
            RequestKeys::GetChats
        } else {
            match RequestKeys::from_str(data) {
                Ok(k) => k,
                Err(_) => RequestKeys::Unknown,
            }
        }
    }
}

impl ResponseKeys {
    /// The text of this response kind.
    pub fn to_str(&self) -> (r: String)
        ensures
            r@ == response_key_text(*self),
    {
        match self {
            ResponseKeys::Messages => String::from_str("messages"),
            ResponseKeys::Chat => String::from_str("chat"),
            ResponseKeys::UpdateFile => String::from_str("updateFile"),
            ResponseKeys::Chats => String::from_str("chats"),
            ResponseKeys::UpdateChatReadInbox => String::from_str("updateChatReadInbox"),
            ResponseKeys::OkReply => String::from_str("ok"),
        }
    }

    /// Reads a response kind from a text (a TDLib `@type` or a task row);
    /// fails with `UnknownResponseKey` on any other text.
    pub fn from_str(data: &str) -> (r: Result<ResponseKeys, BotError>)
        ensures
            match response_key_parsed(data@) {
                Some(k) => r == Ok::<ResponseKeys, BotError>(k),
                None => r == Err::<ResponseKeys, BotError>(BotError::UnknownResponseKey),
            },
    {
        if str_eq(data, "chats") {
            Ok(ResponseKeys::Chats)
        } else if str_eq(data, "messages") {
            Ok(ResponseKeys::Messages)
        } else if str_eq(data, "chat") {
            Ok(ResponseKeys::Chat)
        } else if str_eq(data, "updateFile") {
            Ok(ResponseKeys::UpdateFile)
        } else if str_eq(data, "updateChatReadInbox") {
            Ok(ResponseKeys::UpdateChatReadInbox)
        } else if str_eq(data, "ok") {
            Ok(ResponseKeys::OkReply)
        } else {
            Err(BotError::UnknownResponseKey)
        }
    }
}

proof fn response_texts_distinct()
    ensures
        "chats"@.len() == 5,
        "messages"@.len() == 8,
        "chat"@.len() == 4,
        "updateFile"@.len() == 10,
        "updateChatReadInbox"@.len() == 19,
        "ok"@.len() == 2,
{
    broadcast use vstd::string::group_string_axioms;
    reveal_strlit("chats");
    reveal_strlit("messages");
    reveal_strlit("chat");
    reveal_strlit("updateFile");
    reveal_strlit("updateChatReadInbox");
    reveal_strlit("ok");
}

/// Every response kind reads back from its own text.
pub proof fn response_key_round_trip(k: ResponseKeys)
    ensures
        response_key_parsed(response_key_text(k)) == Some(k),
{
    response_texts_distinct();
}

/// A text that reads as a response kind is that kind's own text.
pub proof fn response_key_parse_exact(s: Seq<char>)
    ensures
        response_key_parsed(s) matches Some(k) ==> response_key_text(k) == s,
{
}

proof fn request_texts_distinct()
    ensures
        "getChatHistory"@.len() == 14,
        "downloadFile"@.len() == 12,
        "getChat"@.len() == 7,
        "searchPublicChat"@.len() == 16,
        "searchPubliChat"@.len() == 15,
        "unknown"@.len() == 7,
        "getChats"@.len() == 8,
        "sendMessage"@.len() == 11,
        "openChat"@.len() == 8,
        "unknown"@[0] != "getChat"@[0],
        "openChat"@[0] != "getChats"@[0],
{
    broadcast use vstd::string::group_string_axioms;
    reveal_strlit("getChatHistory");
    reveal_strlit("downloadFile");
    reveal_strlit("getChat");
    reveal_strlit("searchPublicChat");
    reveal_strlit("searchPubliChat");
    reveal_strlit("unknown");
    reveal_strlit("getChats");
    reveal_strlit("sendMessage");
    reveal_strlit("openChat");
}

/// Whether a request kind is one that `RequestKeys::from_str` knows.
pub open spec fn request_key_readable(k: RequestKeys) -> bool {
    k == RequestKeys::GetChatHistory || k == RequestKeys::DownloadFile || k == RequestKeys::GetChat
        || k == RequestKeys::Unknown
}

/// Every request kind that `from_str` knows reads back from its own text;
/// the others (the search kind, whose text it misspells, the chat-list,
/// send and open kinds) read as `Unknown`.
pub proof fn request_key_round_trip(k: RequestKeys)
    ensures
        request_key_readable(k) ==> request_key_parsed(request_key_text(k)) == k,
        !request_key_readable(k) ==> request_key_parsed(request_key_text(k)) == RequestKeys::Unknown,
{
    request_texts_distinct();
}

/// A task row's text reads back to every request kind that `from_str`
/// knows and to the chat-list kind.
pub proof fn request_key_stored_round_trip(k: RequestKeys)
    ensures
        request_key_readable(k) || k == RequestKeys::GetChats ==> request_key_stored(
            request_key_text(k),
        ) == k,
{
    request_texts_distinct();
}

} // verus!
