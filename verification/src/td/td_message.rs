//! Messages read from a chat's history: what the bot keeps of them, and
//! what it does with each message of the dating bot.
use vstd::prelude::*;
use crate::entities::task::Task;
use crate::ids::{is_uuid_v4, new_uuid_v4, uuid_text, uuid_to_string};
use crate::keys::{RequestKeys, ResponseKeys};
use crate::status::TaskStatus;
use crate::td::requests::{chat_history_members, get_chat_history_json, is_td_request};
use crate::text::{seq_contains, str_contains};

verus! {

/// What an entity of a formatted text is, as far as the bot cares: a
/// link with its own URL, or anything else.
#[derive(Debug)]
pub enum TdTextEntityType {
    TextUrl(String),
    Other,
}

/// An entity of a formatted text.
#[derive(Debug)]
pub struct TdTextEntity {
    pub entity_type: TdTextEntityType,
}

/// A formatted text: the text and its entities.
#[derive(Debug)]
pub struct TdFormattedText {
    pub text: String,
    pub entities: Vec<TdTextEntity>,
}

/// One size of a photo: the file holding it and its local path.
#[derive(Debug)]
pub struct TdPhotoSize {
    pub file_id: i32,
    pub local_path: String,
}

/// The content of a message, as far as the bot reads it.
#[derive(Debug)]
pub enum TdMessageContent {
    Video { caption: TdFormattedText },
    Photo { caption: TdFormattedText, sizes: Vec<TdPhotoSize> },
    Text { text: TdFormattedText },
    Other,
}

/// A message of a chat's history.
#[derive(Debug)]
pub struct TdMessage {
    pub id: i64,
    pub chat_id: i64,
    pub date: i32,
    pub content: TdMessageContent,
}

/// Whether the bot can read the content: a photo has at least one size.
pub open spec fn content_readable(c: TdMessageContent) -> bool {
    c matches TdMessageContent::Photo { sizes, .. } ==> sizes@.len() > 0
}

/// The URL of the last link among the entities, if any.
pub open spec fn last_url(entities: Seq<TdTextEntity>) -> Option<Seq<char>>
    decreases entities.len(),
{
    if entities.len() == 0 {
        None
    } else {
        match entities.last().entity_type {
            TdTextEntityType::TextUrl(u) => Some(u@),
            TdTextEntityType::Other => last_url(entities.drop_last()),
        }
    }
}

/// What the bot reads from a message content.
pub struct ParseMessageContent {
    text: String,
    url: Option<String>,
    file_ids: Option<Vec<i32>>,
    local_path: String,
}

impl ParseMessageContent {
    pub closed spec fn spec_text(&self) -> Seq<char> {
        self.text@
    }

    pub closed spec fn spec_url(&self) -> Option<Seq<char>> {
        match self.url {
            Some(u) => Some(u@),
            None => None,
        }
    }

    pub closed spec fn spec_file_ids(&self) -> Option<Seq<i32>> {
        match self.file_ids {
            Some(v) => Some(v@),
            None => None,
        }
    }

    pub closed spec fn spec_local_path(&self) -> Seq<char> {
        self.local_path@
    }

    /// The text.
    pub fn text(&self) -> (r: &String)
        ensures
            r@ == self.spec_text(),
    {
        &self.text
    }
}

/// The text the bot keeps of a message content: the caption of a video
/// or photo, the text of a text message, `"unmatched"` otherwise.
pub open spec fn content_text(c: TdMessageContent) -> Seq<char> {
    match c {
        TdMessageContent::Video { caption } => caption.text@,
        TdMessageContent::Photo { caption, .. } => caption.text@,
        TdMessageContent::Text { text } => text.text@,
        TdMessageContent::Other => "unmatched"@,
    }
}

/// The link of a message content: the last link of its caption or text.
pub open spec fn content_url(c: TdMessageContent) -> Option<Seq<char>> {
    match c {
        TdMessageContent::Video { caption } => last_url(caption.entities@),
        TdMessageContent::Photo { caption, .. } => last_url(caption.entities@),
        TdMessageContent::Text { text } => last_url(text.entities@),
        TdMessageContent::Other => None,
    }
}

/// The files of a message content: the largest (last) size of a photo,
/// none otherwise.
pub open spec fn content_file_ids(c: TdMessageContent) -> Seq<i32> {
    match c {
        TdMessageContent::Photo { sizes, .. } => seq![sizes@.last().file_id],
        _ => Seq::empty(),
    }
}

/// The local path of the largest size of a photo, empty otherwise.
pub open spec fn content_local_path(c: TdMessageContent) -> Seq<char> {
    match c {
        TdMessageContent::Photo { sizes, .. } => sizes@.last().local_path@,
        _ => Seq::empty(),
    }
}

/// Sets the URL of `content` to that of the last link among `entities`,
/// where there is one.
fn get_url_entity(entities: &Vec<TdTextEntity>, content: &mut ParseMessageContent)
    ensures
        final(content).spec_text() == old(content).spec_text(),
        final(content).spec_file_ids() == old(content).spec_file_ids(),
        final(content).spec_local_path() == old(content).spec_local_path(),
        final(content).spec_url() == match last_url(entities@) {
            Some(u) => Some(u),
            None => old(content).spec_url(),
        },
{
    let mut i: usize = 0;
    while i < entities.len()
        invariant
            i <= entities.len(),
            content.spec_text() == old(content).spec_text(),
            content.spec_file_ids() == old(content).spec_file_ids(),
            content.spec_local_path() == old(content).spec_local_path(),
            content.spec_url() == match last_url(entities@.take(i as int)) {
                Some(u) => Some(u),
                None => old(content).spec_url(),
            },
        decreases entities.len() - i,
    {
        assert(entities@.take(i + 1).drop_last() =~= entities@.take(i as int));
        match &entities[i].entity_type {
            TdTextEntityType::TextUrl(url) => {
                content.url = Some(url.clone());
            },
            TdTextEntityType::Other => {},
        }
        i = i + 1;
    }
    assert(entities@.take(entities.len() as int) =~= entities@);
}

/// Reads a message content: its text, link, files and local photo path.
pub fn match_message_content(msg_content: &TdMessageContent) -> (r: Result<ParseMessageContent, crate::error::BotError>)
    requires
        content_readable(*msg_content),
    ensures
        r matches Ok(p) && p.spec_text() == content_text(*msg_content) && p.spec_url()
            == content_url(*msg_content) && p.spec_file_ids() == Some(
            content_file_ids(*msg_content),
        ) && p.spec_local_path() == content_local_path(*msg_content),
{
    let mut parsed_content = ParseMessageContent {
        url: None,
        file_ids: None,
        text: String::from_str("unmatched"),
        local_path: String::new(),
    };
    let mut file_ids: Vec<i32> = Vec::new();
    match msg_content {
        TdMessageContent::Video { caption } => {
            parsed_content.text = caption.text.clone();
            get_url_entity(&caption.entities, &mut parsed_content);
        },
        TdMessageContent::Photo { caption, sizes } => {
            parsed_content.text = caption.text.clone();
            let largest_size = &sizes[sizes.len() - 1];
            file_ids.push(largest_size.file_id);
            parsed_content.local_path = largest_size.local_path.clone();
            get_url_entity(&caption.entities, &mut parsed_content);
        },
        TdMessageContent::Text { text } => {
            parsed_content.text = text.text.clone();
            get_url_entity(&text.entities, &mut parsed_content);
        },
        TdMessageContent::Other => {},
    }
    proof {
        if msg_content is Photo {
            assert(file_ids@ =~= content_file_ids(*msg_content));
        } else {
            assert(file_ids@ =~= content_file_ids(*msg_content));
        }
    }
    parsed_content.file_ids = Some(file_ids);
    Ok(parsed_content)
}

/// What the bot keeps of a message.
#[derive(Debug)]
pub struct MessageMeta {
    id: String,
    message_id: i64,
    is_read: bool,
    text: String,
    created_at: i32,
    chat_id: i64,
    url: Option<String>,
    file_ids: Option<Vec<i32>>,
    processed: bool,
}

/// The text that tells of a mutual like.
pub open spec fn match_announcement() -> Seq<char> {
    "Есть взаимная симпатия!"@
}

impl MessageMeta {
    pub closed spec fn spec_id(&self) -> Seq<char> {
        self.id@
    }

    pub closed spec fn spec_message_id(&self) -> i64 {
        self.message_id
    }

    pub closed spec fn spec_is_read(&self) -> bool {
        self.is_read
    }

    pub closed spec fn spec_text(&self) -> Seq<char> {
        self.text@
    }

    pub closed spec fn spec_created_at(&self) -> i32 {
        self.created_at
    }

    pub closed spec fn spec_chat_id(&self) -> i64 {
        self.chat_id
    }

    pub closed spec fn spec_url(&self) -> Option<Seq<char>> {
        match self.url {
            Some(u) => Some(u@),
            None => None,
        }
    }

    pub closed spec fn spec_file_ids(&self) -> Option<Seq<i32>> {
        match self.file_ids {
            Some(v) => Some(v@),
            None => None,
        }
    }

    pub closed spec fn spec_processed(&self) -> bool {
        self.processed
    }

    /// What the bot keeps of a history message: a fresh random id, the
    /// message's id, chat and date, its content read by
    /// `match_message_content`, marked read and not processed.
    pub fn from_message(msg: &TdMessage) -> (r: Result<MessageMeta, crate::error::BotError>)
        requires
            content_readable(msg.content),
        ensures
            r matches Ok(m) && (exists|u: u128| is_uuid_v4(u) && m.spec_id() == uuid_text(u)) && m.spec_message_id()
                == msg.id && m.spec_chat_id() == msg.chat_id && m.spec_created_at() == msg.date
                && m.spec_is_read() && !m.spec_processed() && m.spec_text() == content_text(
                msg.content,
            ) && m.spec_url() == content_url(msg.content) && m.spec_file_ids() == Some(
                content_file_ids(msg.content),
            ),
    {
        let is_read = true;
        let parsed = match_message_content(&msg.content);
        let parsed_content = match parsed {
            Ok(p) => p,
            Err(e) => {
                return Err(e);
            },
        };
        let u = new_uuid_v4();
        Ok(MessageMeta {
            id: uuid_to_string(u),
            message_id: msg.id,
            chat_id: msg.chat_id,
            is_read,
            text: parsed_content.text,
            created_at: msg.date,
            url: parsed_content.url,
            file_ids: parsed_content.file_ids,
            processed: false,
        })
    }

    /// A message as read back from a message row: without files, not
    /// processed.
    pub fn from_row(
        id: String,
        message_id: i64,
        is_read: bool,
        text: String,
        created_at: i32,
        chat_id: i64,
        url: String,
    ) -> (r: MessageMeta)
        ensures
            r.spec_id() == id@,
            r.spec_message_id() == message_id,
            r.spec_is_read() == is_read,
            r.spec_text() == text@,
            r.spec_created_at() == created_at,
            r.spec_chat_id() == chat_id,
            r.spec_url() == Some(url@),
            r.spec_file_ids() is None,
            !r.spec_processed(),
    {
        MessageMeta {
            id,
            message_id,
            is_read,
            text,
            created_at,
            chat_id,
            url: Some(url),
            file_ids: None,
            processed: false,
        }
    }

    /// Whether the message announces a mutual like.
    pub fn is_match(&self) -> (r: bool)
        ensures
            r == seq_contains(self.spec_text(), match_announcement()),
    {
        str_contains(self.text.as_str(), "Есть взаимная симпатия!")
    }

    /// The link.
    pub fn url(&self) -> (r: &Option<String>)
        ensures
            match *r {
                Some(u) => self.spec_url() == Some(u@),
                None => self.spec_url() is None,
            },
    {
        &self.url
    }

    /// Whether the message was read.
    pub fn is_read(&self) -> (r: &bool)
        ensures
            *r == self.spec_is_read(),
    {
        &self.is_read
    }

    /// The chat.
    pub fn chat_id(&self) -> (r: &i64)
        ensures
            *r == self.spec_chat_id(),
    {
        &self.chat_id
    }

    /// The message id.
    pub fn message_id(&self) -> (r: &i64)
        ensures
            *r == self.spec_message_id(),
    {
        &self.message_id
    }

    /// The text.
    pub fn text(&self) -> (r: &String)
        ensures
            r@ == self.spec_text(),
    {
        &self.text
    }

    /// The files.
    pub fn file_ids(&self) -> (r: &Option<Vec<i32>>)
        ensures
            match *r {
                Some(v) => self.spec_file_ids() == Some(v@),
                None => self.spec_file_ids() is None,
            },
    {
        &self.file_ids
    }

    /// The id.
    pub fn id(&self) -> (r: &String)
        ensures
            r@ == self.spec_id(),
    {
        &self.id
    }

    /// The date.
    pub fn created_at(&self) -> (r: i32)
        ensures
            r == self.spec_created_at(),
    {
        self.created_at
    }

    /// Whether the message was processed.
    pub fn processed(&self) -> (r: bool)
        ensures
            r == self.spec_processed(),
    {
        self.processed
    }
}

/// Whether a text holds one of the phrases of the bot's own screens
/// (menus, the bot's profile, limits), which are not profiles to review.
pub open spec fn is_blocked(t: Seq<char>) -> bool {
    ||| seq_contains(t, "✨🔍"@)
    ||| seq_contains(t, "Так выглядит твоя анкета:"@)
    ||| seq_contains(t, "1"@)
    ||| seq_contains(t, "никита, 21"@)
    ||| seq_contains(t, "/start"@)
    ||| seq_contains(t, "unmatched"@)
    ||| seq_contains(t, "Бот знакомств Дайвинчик🍷"@)
    ||| seq_contains(t, "Слишком много ❤️ за сегодня."@)
}

/// Whether a message text holds one of the bot's own phrases.
pub fn is_blocked_text(t: &str) -> (r: bool)
    ensures
        r == is_blocked(t@),
{
    str_contains(t, "✨🔍") || str_contains(t, "Так выглядит твоя анкета:") || str_contains(t, "1")
        || str_contains(t, "никита, 21") || str_contains(t, "/start") || str_contains(
        t,
        "unmatched",
    ) || str_contains(t, "Бот знакомств Дайвинчик🍷") || str_contains(
        t,
        "Слишком много ❤️ за сегодня.",
    )
}

/// What to do with one message of the dating bot's history.
#[derive(Debug)]
pub enum HistoryAction {
    /// Not a profile: skip it.
    Skip,
    /// Store it; nothing more.
    Store,
    /// Store it; it tells of a super like: answer with "1", then read the
    /// bot's last message.
    StoreAndAnswer,
    /// Store it; a profile with photos: review it (where no review is
    /// running) starting from these files.
    StoreAndReview { file_ids: Vec<i32> },
    /// Store it; a profile without photo: dislike it, restart the bot and
    /// read its last message.
    StoreAndDislike,
}

/// Whether a message is skipped: its text is empty or holds one of the
/// bot's own phrases.
pub open spec fn history_skipped(text: Seq<char>) -> bool {
    is_blocked(text) || text.len() == 0
}

/// The action for a message of the given text and files: skipped where
/// the text is empty or one of the bot's own phrases; else stored, and
/// then answered where it tells of a super like, reviewed where it has
/// files, disliked where its file list is empty.
pub open spec fn history_action_is(
    r: HistoryAction,
    text: Seq<char>,
    file_ids: Option<Seq<i32>>,
    superlike_notice: bool,
) -> bool {
    if history_skipped(text) {
        r is Skip
    } else if superlike_notice {
        r is StoreAndAnswer
    } else {
        match file_ids {
            None => r is Store,
            Some(ids) => if ids.len() > 0 {
                r matches HistoryAction::StoreAndReview { file_ids } && file_ids@ == ids
            } else {
                r is StoreAndDislike
            },
        }
    }
}

/// Decides what to do with a message read from the dating bot's history;
/// `superlike_notice` tells whether its text announces a super like.
pub fn history_action(parsed: &MessageMeta, superlike_notice: bool) -> (r: HistoryAction)
    ensures
        history_action_is(r, parsed.spec_text(), parsed.spec_file_ids(), superlike_notice),
{
    let text = parsed.text.as_str();
    if is_blocked_text(text) || text.is_empty() {
        return HistoryAction::Skip;
    }
    if superlike_notice {
        return HistoryAction::StoreAndAnswer;
    }
    match &parsed.file_ids {
        None => HistoryAction::Store,
        Some(ids) => if ids.len() > 0 {
            HistoryAction::StoreAndReview { file_ids: ids.clone() }
        } else {
            HistoryAction::StoreAndDislike
        },
    }
}

/// The task reading the last `limit` messages of a chat.
pub fn td_get_last_message(chat_id: i64, limit: i32) -> (r: Task)
    ensures
        r.spec_request() == RequestKeys::GetChatHistory,
        r.spec_response() == ResponseKeys::Messages,
        r.spec_status() == TaskStatus::Waiting,
        is_td_request(r.spec_message(), chat_history_members(chat_id, 0, 0, limit), "getChatHistory"@),
{
    let message = get_chat_history_json(chat_id, 0, 0, limit);
    Task::new(message, RequestKeys::GetChatHistory, ResponseKeys::Messages)
}

/// The message the history reads of the dating bot start from.
pub const HISTORY_ANCHOR_MESSAGE_ID: i64 = 13981712384;

/// The task reading `offset` messages of a chat from the fixed anchor
/// message (the given message id is not used).
pub fn td_read_one_from_message_id(chat_id: i64, message_id: i64, offset: i32) -> (r: Task)
    ensures
        r.spec_request() == RequestKeys::GetChatHistory,
        r.spec_response() == ResponseKeys::Messages,
        r.spec_status() == TaskStatus::Waiting,
        is_td_request(
            r.spec_message(),
            chat_history_members(chat_id, HISTORY_ANCHOR_MESSAGE_ID, 0, offset),
            "getChatHistory"@,
        ),
{
    let message = get_chat_history_json(chat_id, HISTORY_ANCHOR_MESSAGE_ID, 0, offset);
    Task::new(message, RequestKeys::GetChatHistory, ResponseKeys::Messages)
}


/// A message whose text holds any of the bot's own phrases (its search
/// screen, its own profile, a menu choice, the owner's profile, a restart,
/// an unread content, its greeting, the daily like limit) is skipped,
/// whatever its files and whether or not it tells of a super like; a
/// non-empty message holding none of them is never skipped.
pub proof fn bot_phrases_are_skipped(
    r: HistoryAction,
    text: Seq<char>,
    file_ids: Option<Seq<i32>>,
    superlike_notice: bool,
)
    requires
        history_action_is(r, text, file_ids, superlike_notice),
    ensures
        seq_contains(text, "✨🔍"@) ==> r is Skip,
        seq_contains(text, "Так выглядит твоя анкета:"@) ==> r is Skip,
        seq_contains(text, "1"@) ==> r is Skip,
        seq_contains(text, "никита, 21"@) ==> r is Skip,
        seq_contains(text, "/start"@) ==> r is Skip,
        seq_contains(text, "unmatched"@) ==> r is Skip,
        seq_contains(text, "Бот знакомств Дайвинчик🍷"@) ==> r is Skip,
        seq_contains(text, "Слишком много ❤️ за сегодня."@) ==> r is Skip,
        text.len() == 0 ==> r is Skip,
        text.len() > 0 && !seq_contains(text, "✨🔍"@) && !seq_contains(
            text,
            "Так выглядит твоя анкета:"@,
        ) && !seq_contains(text, "1"@) && !seq_contains(text, "никита, 21"@) && !seq_contains(
            text,
            "/start"@,
        ) && !seq_contains(text, "unmatched"@) && !seq_contains(
            text,
            "Бот знакомств Дайвинчик🍷"@,
        ) && !seq_contains(text, "Слишком много ❤️ за сегодня."@) ==> !(r is Skip),
{
}

} // verus!
