//! A chat as Telegram Desktop exports it to JSON.
use vstd::prelude::*;

verus! {

/// An exported chat with its messages in order.
#[derive(Debug)]
pub struct ExportedChat {
    pub name: String,
    pub chat_type: String,
    pub id: i64,
    pub messages: Vec<Message>,
}

/// One exported message.
#[derive(Debug)]
pub struct Message {
    pub id: i64,
    pub message_type: String,
    pub date: String,
    pub date_unixtime: String,
    pub from: Option<String>,
    pub from_id: Option<String>,
    pub text: TextOrTextList,
    pub text_entities: Vec<TextEntity>,
    pub edited: Option<String>,
    pub edited_unixtime: Option<String>,
    pub reply_to_message_id: Option<i64>,
    pub file: Option<String>,
    pub file_name: Option<String>,
    pub file_size: Option<u64>,
    pub photo: Option<String>,
    pub photo_file_size: Option<u64>,
    pub thumbnail: Option<String>,
    pub thumbnail_file_size: Option<u64>,
    pub width: Option<u32>,
    pub height: Option<u32>,
    pub duration_seconds: Option<u32>,
    pub media_type: Option<String>,
    pub sticker_emoji: Option<String>,
    pub mime_type: Option<String>,
    pub reactions: Option<Vec<Reaction>>,
}

/// A message text: one plain string, or a list of plain and formatted parts.
#[derive(Debug)]
pub enum TextOrTextList {
    Single(String),
    List(Vec<TextOrTextPart>),
}

/// One part of a message text.
#[derive(Debug)]
pub enum TextOrTextPart {
    Single(String),
    TextPart(TextPart),
}

/// A formatted part of a message text (a link, bold text, ...).
#[derive(Debug)]
pub struct TextPart {
    pub part_type: String,
    pub text: String,
    pub document_id: Option<String>,
}

/// An entity of a message text.
#[derive(Debug)]
pub struct TextEntity {
    pub entity_type: String,
    pub text: String,
}

/// A reaction to a message.
#[derive(Debug)]
pub struct Reaction {
    pub reaction_type: String,
    pub count: u32,
    pub emoji: String,
    pub recent: Vec<RecentReaction>,
}

/// Who reacted recently.
#[derive(Debug)]
pub struct RecentReaction {
    pub from: String,
    pub from_id: String,
    pub date: String,
}

/// The plain text of one part.
pub open spec fn part_text(p: TextOrTextPart) -> Seq<char> {
    match p {
        TextOrTextPart::Single(s) => s@,
        TextOrTextPart::TextPart(t) => t.text@,
    }
}

/// The texts of the parts, joined without separator.
pub open spec fn parts_text(ps: Seq<TextOrTextPart>) -> Seq<char>
    decreases ps.len(),
{
    if ps.len() == 0 {
        Seq::empty()
    } else {
        parts_text(ps.drop_last()) + part_text(ps.last())
    }
}

/// The plain text of a message text.
pub open spec fn text_string(t: TextOrTextList) -> Seq<char> {
    match t {
        TextOrTextList::Single(s) => s@,
        TextOrTextList::List(l) => parts_text(l@),
    }
}

impl TextOrTextList {
    /// The plain text: the single string, or the texts of all parts joined.
    pub fn to_string(&self) -> (r: String)
        ensures
            r@ == text_string(*self),
    {
        match self {
            TextOrTextList::Single(single) => single.clone(),
            TextOrTextList::List(list) => {
                let mut joined_text = String::new();
                let mut i: usize = 0;
                while i < list.len()
                    invariant
                        i <= list.len(),
                        joined_text@ == parts_text(list@.take(i as int)),
                    decreases list.len() - i,
                {
                    match &list[i] {
                        TextOrTextPart::Single(single) => joined_text.append(single.as_str()),
                        TextOrTextPart::TextPart(text_part) => joined_text.append(
                            text_part.text.as_str(),
                        ),
                    }
                    assert(list@.take(i + 1).drop_last() =~= list@.take(i as int));
                    i = i + 1;
                }
                assert(list@.take(list.len() as int) =~= list@);
                joined_text
            },
        }
    }
}

} // verus!
