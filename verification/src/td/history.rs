//! A chat's history as TDLib sends it (`messages`): reading it, and what
//! the bot does with each of its messages.
use vstd::prelude::*;
use crate::error::BotError;
use crate::ids::{is_uuid_v4, uuid_text};
use crate::td::td_message::{
    HistoryAction, MessageMeta, TdFormattedText, TdMessage, TdMessageContent, TdPhotoSize,
    TdTextEntity, TdTextEntityType, content_file_ids, content_readable, content_text, content_url,
    history_action, history_action_is, last_url,
};
use rust_tdlib::types::{FormattedText as TdlibText, MessageContent, TextEntityType};

verus! {

#[verifier::external_type_specification]
#[verifier::external_body]
pub struct ExTdlibMessageContent(rust_tdlib::types::MessageContent);

#[verifier::external_type_specification]
#[verifier::external_body]
pub struct ExTdlibPhoto(rust_tdlib::types::Photo);

/// The link URLs among the entities of a formatted text, in order.
pub open spec fn entity_urls(entities: Seq<TdTextEntity>) -> Seq<Seq<char>>
    decreases entities.len(),
{
    if entities.len() == 0 {
        Seq::empty()
    } else {
        let init = entity_urls(entities.drop_last());
        match entities.last().entity_type {
            TdTextEntityType::TextUrl(u) => init.push(u@),
            TdTextEntityType::Other => init,
        }
    }
}

/// A message content as plain values: its kind (video 0, photo 1, text 2,
/// anything else 3), its caption or text, the link URLs of that text, and
/// the photo's sizes (file id and local path).
pub open spec fn content_picture(c: TdMessageContent) -> (u8, Seq<char>, Seq<Seq<char>>, Seq<(i32, Seq<char>)>) {
    match c {
        TdMessageContent::Video { caption } => (0, caption.text@, entity_urls(caption.entities@), Seq::empty()),
        TdMessageContent::Photo { caption, sizes } => (
            1,
            caption.text@,
            entity_urls(caption.entities@),
            sizes@.map_values(|s: TdPhotoSize| (s.file_id, s.local_path@)),
        ),
        TdMessageContent::Text { text } => (2, text.text@, entity_urls(text.entities@), Seq::empty()),
        TdMessageContent::Other => (3, Seq::empty(), Seq::empty(), Seq::empty()),
    }
}

/// A message as plain values: id, chat id, date and content.
pub open spec fn td_message_picture(m: TdMessage) -> (i64, i64, i32, (u8, Seq<char>, Seq<Seq<char>>, Seq<(i32, Seq<char>)>)) {
    (m.id, m.chat_id, m.date, content_picture(m.content))
}

/// A message of a history, where present, as plain values.
pub open spec fn message_option_picture(m: Option<TdMessage>) -> Option<(i64, i64, i32, (u8, Seq<char>, Seq<Seq<char>>, Seq<(i32, Seq<char>)>))> {
    match m {
        Some(m) => Some(td_message_picture(m)),
        None => None,
    }
}

/// The messages `serde_json` reads from a text as a `rust_tdlib`
/// `Messages`, each present one as plain values; `None` where the text is
/// not such a history.
pub uninterp spec fn parsed_history(text: Seq<char>) -> Option<Seq<Option<(i64, i64, i32, (u8, Seq<char>, Seq<Seq<char>>, Seq<(i32, Seq<char>)>))>>>;

/// Converts the sizes of a `rust_tdlib` photo, each field by field.
/// Trusted for nothing: a conversion that `parse_history`'s contract
/// covers.
#[verifier::external_body]
fn td_sizes_of(p: &rust_tdlib::types::Photo) -> (r: Vec<TdPhotoSize>) {
    p.sizes().iter().map(|s| TdPhotoSize { file_id: s.photo().id(), local_path: s.photo().local().path().clone() }).collect()
}

/// Converts the content of a `rust_tdlib` message, one arm per kind the
/// bot reads, each text with its entities and each photo size field by
/// field. Trusted for nothing: a conversion that `parse_history`'s
/// contract covers.
#[verifier::external_body]
fn td_content_of(c: &rust_tdlib::types::MessageContent) -> (r: TdMessageContent) {
    let fmt = |t: &TdlibText| TdFormattedText { text: t.text().clone(), entities: t.entities().iter().map(|e| TdTextEntity { entity_type: match e.type_() {
        TextEntityType::TextUrl(u) => TdTextEntityType::TextUrl(u.url().clone()),
        _ => TdTextEntityType::Other,
    } }).collect() };
    match c {
        MessageContent::MessageVideo(v) => TdMessageContent::Video { caption: fmt(v.caption()) },
        MessageContent::MessagePhoto(p) => TdMessageContent::Photo { caption: fmt(p.caption()), sizes: td_sizes_of(p.photo()) },
        MessageContent::MessageText(t) => TdMessageContent::Text { text: fmt(t.text()) },
        _ => TdMessageContent::Other,
    }
}

/// The messages of a TDLib `messages` text (`serde_json::from_str` into
/// `rust_tdlib::types::Messages`, then each present message converted).
/// Trusted: the messages, as plain values, are `parsed_history` of the
/// text, which depends on the text alone.
#[verifier::external_body]
pub fn parse_history(text: &str) -> (r: Option<Vec<Option<TdMessage>>>)
    ensures
        match r {
            Some(v) => parsed_history(text@) == Some(
                v@.map_values(|m: Option<TdMessage>| message_option_picture(m)),
            ),
            None => parsed_history(text@) is None,
        },
{
    match serde_json::from_str::<rust_tdlib::types::Messages>(text) {
        Ok(ms) => Some(ms.messages().iter().map(|m| m.as_ref().map(|m| TdMessage { id: m.id(), chat_id: m.chat_id(), date: m.date(), content: td_content_of(m.content()) })).collect()),
        Err(_) => None,
    }
}

/// Whether the bot can read a content given as plain values: a photo has
/// at least one size.
pub open spec fn picture_readable(c: (u8, Seq<char>, Seq<Seq<char>>, Seq<(i32, Seq<char>)>)) -> bool {
    c.0 == 1 ==> c.3.len() > 0
}

/// The text the bot keeps of a content given as plain values.
pub open spec fn picture_text(c: (u8, Seq<char>, Seq<Seq<char>>, Seq<(i32, Seq<char>)>)) -> Seq<char> {
    if c.0 == 3 {
        "unmatched"@
    } else {
        c.1
    }
}

/// The link the bot keeps of a content given as plain values: the last.
pub open spec fn picture_url(c: (u8, Seq<char>, Seq<Seq<char>>, Seq<(i32, Seq<char>)>)) -> Option<Seq<char>> {
    if c.2.len() > 0 {
        Some(c.2.last())
    } else {
        None
    }
}

/// The files the bot keeps of a content given as plain values: the
/// largest (last) size of a photo.
pub open spec fn picture_file_ids(c: (u8, Seq<char>, Seq<Seq<char>>, Seq<(i32, Seq<char>)>)) -> Seq<i32> {
    if c.0 == 1 {
        seq![c.3.last().0]
    } else {
        Seq::empty()
    }
}

/// The present messages of a history whose content the bot can read, in
/// order.
pub open spec fn kept_pictures(
    ps: Seq<Option<(i64, i64, i32, (u8, Seq<char>, Seq<Seq<char>>, Seq<(i32, Seq<char>)>))>>,
) -> Seq<(i64, i64, i32, (u8, Seq<char>, Seq<Seq<char>>, Seq<(i32, Seq<char>)>))>
    decreases ps.len(),
{
    if ps.len() == 0 {
        Seq::empty()
    } else {
        let init = kept_pictures(ps.drop_last());
        match ps.last() {
            Some(p) => if picture_readable(p.3) {
                init.push(p)
            } else {
                init
            },
            None => init,
        }
    }
}

/// Whether `m` is what `MessageMeta::from_message` keeps of the message
/// given as plain values: a fresh version-4 id, the message's id, chat,
/// date, text, link and files, read and not processed.
pub open spec fn meta_of_picture(
    m: MessageMeta,
    p: (i64, i64, i32, (u8, Seq<char>, Seq<Seq<char>>, Seq<(i32, Seq<char>)>)),
) -> bool {
    &&& exists|u: u128| is_uuid_v4(u) && m.spec_id() == uuid_text(u)
    &&& m.spec_message_id() == p.0
    &&& m.spec_chat_id() == p.1
    &&& m.spec_created_at() == p.2
    &&& m.spec_is_read()
    &&& !m.spec_processed()
    &&& m.spec_text() == picture_text(p.3)
    &&& m.spec_url() == picture_url(p.3)
    &&& m.spec_file_ids() == Some(picture_file_ids(p.3))
}

/// What the bot does with a history given as plain values: for each
/// present, readable message in order, what it keeps of it and the action
/// for it (no super-like notice).
pub open spec fn history_steps_are(
    r: Seq<(MessageMeta, HistoryAction)>,
    ps: Seq<Option<(i64, i64, i32, (u8, Seq<char>, Seq<Seq<char>>, Seq<(i32, Seq<char>)>))>>,
) -> bool {
    &&& r.len() == kept_pictures(ps).len()
    &&& forall|i: int|
        0 <= i < r.len() ==> {
            &&& meta_of_picture(#[trigger] r[i].0, kept_pictures(ps)[i])
            &&& history_action_is(r[i].1, r[i].0.spec_text(), r[i].0.spec_file_ids(), false)
        }
}

proof fn lemma_last_url(entities: Seq<TdTextEntity>)
    ensures
        last_url(entities) == (if entity_urls(entities).len() > 0 {
            Some(entity_urls(entities).last())
        } else {
            None
        }),
    decreases entities.len(),
{
    if entities.len() > 0 {
        lemma_last_url(entities.drop_last());
    }
}

proof fn lemma_content_picture(c: TdMessageContent)
    ensures
        content_readable(c) == picture_readable(content_picture(c)),
        content_text(c) == picture_text(content_picture(c)),
        content_url(c) == picture_url(content_picture(c)),
        content_readable(c) ==> content_file_ids(c) == picture_file_ids(content_picture(c)),
{
    match c {
        TdMessageContent::Video { caption } => lemma_last_url(caption.entities@),
        TdMessageContent::Photo { caption, sizes } => {
            lemma_last_url(caption.entities@);
            let ps = sizes@.map_values(|s: TdPhotoSize| (s.file_id, s.local_path@));
            if sizes@.len() > 0 {
                assert(ps.last() == (sizes@.last().file_id, sizes@.last().local_path@));
                assert(content_file_ids(c) =~= picture_file_ids(content_picture(c)));
            }
        },
        TdMessageContent::Text { text } => lemma_last_url(text.entities@),
        TdMessageContent::Other => {
            reveal_strlit("unmatched");
        },
    }
}

/// Whether the bot can read a message content.
fn is_readable(c: &TdMessageContent) -> (r: bool)
    ensures
        r == content_readable(*c),
{
    match c {
        TdMessageContent::Photo { sizes, .. } => sizes.len() > 0,
        _ => true,
    }
}

/// What the bot does with the messages of a history: for each present
/// message whose content it can read, in order, what it keeps of it
/// (`MessageMeta::from_message`) and the action for it
/// (`history_action`, with no super-like notice).
pub fn history_actions_of(messages: &Vec<Option<TdMessage>>) -> (r: Vec<(MessageMeta, HistoryAction)>)
    ensures
        history_steps_are(r@, messages@.map_values(|m: Option<TdMessage>| message_option_picture(m))),
{
    let ghost ps = messages@.map_values(|m: Option<TdMessage>| message_option_picture(m));
    let mut out: Vec<(MessageMeta, HistoryAction)> = Vec::new();
    let mut i: usize = 0;
    while i < messages.len()
        invariant
            i <= messages@.len(),
            ps == messages@.map_values(|m: Option<TdMessage>| message_option_picture(m)),
            history_steps_are(out@, ps.take(i as int)),
        decreases messages.len() - i,
    {
        proof {
            assert(ps.take(i + 1).drop_last() =~= ps.take(i as int));
            assert(ps.take(i + 1).last() == message_option_picture(messages@[i as int]));
        }
        match &messages[i] {
            Some(m) => {
                proof {
                    lemma_content_picture(m.content);
                }
                if is_readable(&m.content) {
                    if let Ok(meta) = MessageMeta::from_message(m) {
                        let action = history_action(&meta, false);
                        let ghost before = out@;
                        out.push((meta, action));
                        proof {
                            let k = kept_pictures(ps.take(i + 1));
                            assert(k == kept_pictures(ps.take(i as int)).push(td_message_picture(*m)));
                            assert forall|j: int| 0 <= j < out@.len() implies {
                                &&& meta_of_picture(#[trigger] out@[j].0, k[j])
                                &&& history_action_is(out@[j].1, out@[j].0.spec_text(), out@[j].0.spec_file_ids(), false)
                            } by {
                                if j < before.len() {
                                    assert(out@[j] == before[j]);
                                }
                            }
                        }
                    }
                } else {
                    proof {
                        assert(kept_pictures(ps.take(i + 1)) == kept_pictures(ps.take(i as int)));
                    }
                }
            },
            None => {
                proof {
                    assert(kept_pictures(ps.take(i + 1)) == kept_pictures(ps.take(i as int)));
                }
            },
        }
        i = i + 1;
    }
    proof {
        assert(ps.take(messages@.len() as int) =~= ps);
    }
    out
}

/// What the bot does with a TDLib `messages` text: an error where the text
/// is not a history, else, for each present message whose content it can
/// read, in order, what it keeps of it and the action for it.
pub fn history_actions(text: &str) -> (r: Result<Vec<(MessageMeta, HistoryAction)>, BotError>)
    ensures
        match parsed_history(text@) {
            None => r == Err::<Vec<(MessageMeta, HistoryAction)>, BotError>(BotError::MalformedJson),
            Some(ps) => r matches Ok(v) && history_steps_are(v@, ps),
        },
{
    match parse_history(text) {
        Some(messages) => Ok(history_actions_of(&messages)),
        None => Err(BotError::MalformedJson),
    }
}

} // verus!
