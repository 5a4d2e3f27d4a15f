//! Turning an exported private chat into dialogues between a user and the
//! assistant (the account owner), the training data of the fine-tuned model.
use vstd::prelude::*;
use crate::text::str_eq;
use crate::json::{
    json_quoted, json_string, lemma_json_quoted_single_line, lemma_single_line_concat, single_line,
};
use self::types::{
    ExportedChat, Message, TextOrTextList, TextOrTextPart, text_string,
};

pub mod types;

verus! {

/// What a text part holds, as plain values: whether it is a plain
/// string, its string or part type, its text, its document id.
pub open spec fn part_picture(p: TextOrTextPart) -> (bool, Seq<char>, Seq<char>, Option<Seq<char>>) {
    match p {
        TextOrTextPart::Single(s) => (true, s@, Seq::empty(), None),
        TextOrTextPart::TextPart(t) => (
            false,
            t.part_type@,
            t.text@,
            match t.document_id {
                Some(d) => Some(d@),
                None => None,
            },
        ),
    }
}

/// What the derived `Debug` writes for a list of text parts, as a
/// function of the parts' contents.
pub uninterp spec fn text_parts_debug(parts: Seq<(bool, Seq<char>, Seq<char>, Option<Seq<char>>)>) -> Seq<char>;

/// `format!("{:?}", list)` with the derived `Debug` of the text parts.
/// Trusted: the text depends on the parts' contents alone; what it is
/// (Rust's `Debug` escaping of strings) is not stated.
#[verifier::external_body]
fn debug_text_parts(list: &Vec<TextOrTextPart>) -> (r: String)
    ensures
        r@ == text_parts_debug(list@.map_values(|p: TextOrTextPart| part_picture(p))),
{
    format!("{:?}", list)
}

/// What is appended to a message when a text of the same sender follows
/// it: a line break, then the plain string, or the `Debug` text of a list.
pub open spec fn concat_suffix(t: TextOrTextList) -> Seq<char> {
    match t {
        TextOrTextList::Single(s) => seq!['\n'] + s@,
        TextOrTextList::List(l) => seq!['\n'] + text_parts_debug(
            l@.map_values(|p: TextOrTextPart| part_picture(p)),
        ),
    }
}

/// The role name of the account owner.
pub open spec fn assistant_role() -> Seq<char> {
    "assistant"@
}

/// The role name of the other side.
pub open spec fn user_role() -> Seq<char> {
    "user"@
}

/// One message of a dialogue: its content and the role of its sender.
pub struct PrivateMessage {
    content: String,
    role: String,
}

/// A dialogue: messages whose senders alternate.
pub struct PrivateDialogue {
    messages: Vec<PrivateMessage>,
}

/// The two sides of a dialogue.
#[derive(Debug, Clone, Copy, PartialEq, Eq, Structural)]
pub enum PrivateMessageRole {
    USER,
    ASSISTANT,
}

impl PrivateMessageRole {
    /// The role name written into the training data.
    pub fn to_role_string(&self) -> (r: String)
        ensures
            r@ == (match self {
                PrivateMessageRole::USER => user_role(),
                PrivateMessageRole::ASSISTANT => assistant_role(),
            }),
    {
        match self {
            PrivateMessageRole::ASSISTANT => String::from_str("assistant"),
            PrivateMessageRole::USER => String::from_str("user"),
        }
    }
}

impl View for PrivateMessage {
    type V = (Seq<char>, Seq<char>);

    closed spec fn view(&self) -> (Seq<char>, Seq<char>) {
        (self.content@, self.role@)
    }
}

impl View for PrivateDialogue {
    type V = Seq<(Seq<char>, Seq<char>)>;

    closed spec fn view(&self) -> Seq<(Seq<char>, Seq<char>)> {
        self.messages@.map_values(|m: PrivateMessage| m@)
    }
}

impl PrivateMessage {
    /// A message with the given content and role.
    pub fn new(content: String, role: String) -> (r: PrivateMessage)
        ensures
            r@ == (content@, role@),
    {
        PrivateMessage { content, role }
    }

    /// The content.
    pub fn content(&self) -> (r: &str)
        ensures
            r@ == self@.0,
    {
        self.content.as_str()
    }

    /// The sender's role.
    pub fn role(&self) -> (r: &str)
        ensures
            r@ == self@.1,
    {
        self.role.as_str()
    }

    /// Appends a further text of the same sender after a line break.
    pub fn concat_text(&mut self, text: &TextOrTextList)
        ensures
            final(self)@ == (old(self)@.0 + concat_suffix(*text), old(self)@.1),
    {
        match text {
            TextOrTextList::Single(single) => {
                self.content.append("\n");
                self.content.append(single.as_str());
                proof {
                    reveal_strlit("\n");
                    assert(self.content@ =~= old(self)@.0 + concat_suffix(*text));
                }
            },
            TextOrTextList::List(list) => {
                let rendered = debug_text_parts(list);
                self.content.append("\n");
                self.content.append(rendered.as_str());
                proof {
                    reveal_strlit("\n");
                    assert(self.content@ =~= old(self)@.0 + concat_suffix(*text));
                }
            },
        }
    }
}

impl PrivateDialogue {
    /// A dialogue without messages.
    pub fn new() -> (r: PrivateDialogue)
        ensures
            r@ == Seq::<(Seq<char>, Seq<char>)>::empty(),
    {
        let r = PrivateDialogue { messages: Vec::new() };
        assert(r@ =~= Seq::<(Seq<char>, Seq<char>)>::empty());
        r
    }

    /// The messages in order.
    pub fn messages(&self) -> (r: &Vec<PrivateMessage>)
        ensures
            r@.map_values(|m: PrivateMessage| m@) == self@,
    {
        &self.messages
    }

    /// Appends a message.
    pub fn add_private_message(&mut self, msg: PrivateMessage)
        ensures
            final(self)@ == old(self)@.push(msg@),
    {
        self.messages.push(msg);
        assert(self@ =~= old(self)@.push(msg@));
    }

    /// The last message, to be changed in place; `None` when there is none.
    pub fn get_last_message(&mut self) -> (r: Option<&mut PrivateMessage>)
        ensures
            old(self)@.len() == 0 ==> r is None && final(self)@ == old(self)@,
            old(self)@.len() > 0 ==> r is Some && (*r->0)@ == old(self)@.last() && final(self)@
                == old(self)@.update(old(self)@.len() - 1, (*final(r->0))@),
    {
        let r = self.messages.last_mut();
        proof {
            if old(self)@.len() > 0 {
                assert(final(self)@ =~= old(self)@.update(
                    old(self)@.len() - 1,
                    (*final(r->0))@,
                ));
            } else {
                assert(final(self)@ =~= old(self)@);
            }
        }
        r
    }

    /// Whether the last message was sent by `role`.
    fn last_role_is(&self, role: &String) -> (r: bool)
        ensures
            r == (self@.len() > 0 && self@.last().1 == role@),
    {
        let n = self.messages.len();
        if n == 0 {
            false
        } else {
            self.messages[n - 1].role == *role
        }
    }

    /// Makes the dialogue end with the assistant: where the last message
    /// is another side's, an empty assistant message follows it.
    pub fn check_for_last_message(&mut self) -> (r: Result<(), crate::error::BotError>)
        ensures
            r is Ok,
            final(self)@ == closed_dialogue(old(self)@),
    {
        let assistant = String::from_str("assistant");
        if self.messages.len() == 0 || self.last_role_is(&assistant) {
            Ok(())
        } else {
            let private_message = PrivateMessage { content: String::new(), role: assistant };
            self.add_private_message(private_message);
            Ok(())
        }
    }
}

/// The role of a message's sender: `None` for a message without sender
/// (it is skipped), the assistant where the sender is the account owner.
pub open spec fn role_of(from: Option<String>, assistant_name: Seq<char>) -> Option<Seq<char>> {
    match from {
        None => None,
        Some(f) => Some(
            if f@ == assistant_name {
                assistant_role()
            } else {
                user_role()
            },
        ),
    }
}

/// A dialogue after one more exported message: a text of the last
/// sender is appended to the last message, a text of the other side
/// starts a new message.
pub open spec fn dialogue_step(
    d: Seq<(Seq<char>, Seq<char>)>,
    m: Message,
    assistant_name: Seq<char>,
) -> Seq<(Seq<char>, Seq<char>)> {
    match role_of(m.from, assistant_name) {
        None => d,
        Some(role) => if d.len() > 0 && d.last().1 == role {
            d.update(d.len() - 1, (d.last().0 + concat_suffix(m.text), role))
        } else {
            d.push((text_string(m.text), role))
        },
    }
}

/// The dialogue built from exported messages in order.
pub open spec fn dialogue_of(ms: Seq<Message>, assistant_name: Seq<char>) -> Seq<
    (Seq<char>, Seq<char>),
>
    decreases ms.len(),
{
    if ms.len() == 0 {
        Seq::empty()
    } else {
        dialogue_step(dialogue_of(ms.drop_last(), assistant_name), ms.last(), assistant_name)
    }
}

/// A dialogue made to end with the assistant.
pub open spec fn closed_dialogue(d: Seq<(Seq<char>, Seq<char>)>) -> Seq<(Seq<char>, Seq<char>)> {
    if d.len() > 0 && d.last().1 != assistant_role() {
        d.push((Seq::empty(), assistant_role()))
    } else {
        d
    }
}

/// How many dialogues are built from one exported chat.
pub open spec fn dialogue_copies() -> nat {
    10
}

/// The dialogue of an exported chat: its messages grouped by sender,
/// ending with the assistant.
pub fn dialogue_from_messages(messages: &Vec<Message>, assistant_name: &str) -> (r:
    PrivateDialogue)
    ensures
        r@ == closed_dialogue(dialogue_of(messages@, assistant_name@)),
{
    let mut dialogue = PrivateDialogue::new();
    let mut i: usize = 0;
    while i < messages.len()
        invariant
            i <= messages.len(),
            dialogue@ == dialogue_of(messages@.take(i as int), assistant_name@),
        decreases messages.len() - i,
    {
        let message = &messages[i];
        proof {
            assert(messages@.take(i + 1).drop_last() =~= messages@.take(i as int));
            assert(messages@.take(i + 1).last() == *message);
        }
        let role: String = match &message.from {
            None => {
                i = i + 1;
                continue;
            },
            Some(from_name) => if str_eq(from_name.as_str(), assistant_name) {
                String::from_str("assistant")
            } else {
                String::from_str("user")
            },
        };
        let text = message.text.to_string();
        if dialogue.last_role_is(&role) {
            let last = dialogue.get_last_message();
            match last {
                Some(last) => last.concat_text(&message.text),
                None => {},
            }
        } else {
            dialogue.add_private_message(PrivateMessage { content: text, role });
        }
        i = i + 1;
    }
    assert(messages@.take(messages.len() as int) =~= messages@);
    let _ = dialogue.check_for_last_message();
    dialogue
}

/// The dialogues built from an exported chat: the same dialogue, ten times.
pub fn transform_exported_chat(chat: &ExportedChat, assistant_name: &str) -> (r: Vec<
    PrivateDialogue,
>)
    ensures
        r.len() == dialogue_copies(),
        forall|k: int|
            0 <= k < r.len() ==> (#[trigger] r@[k])@ == closed_dialogue(
                dialogue_of(chat.messages@, assistant_name@),
            ),
{
    let mut dialogues: Vec<PrivateDialogue> = Vec::new();
    let mut n: usize = 0;
    while n < 10
        invariant
            n <= 10,
            dialogues.len() == n,
            forall|k: int|
                0 <= k < n ==> (#[trigger] dialogues@[k])@ == closed_dialogue(
                    dialogue_of(chat.messages@, assistant_name@),
                ),
        decreases 10 - n,
    {
        let dialogue = dialogue_from_messages(&chat.messages, assistant_name);
        dialogues.push(dialogue);
        n = n + 1;
    }
    dialogues
}

/// Whether consecutive messages have different senders and every sender
/// is the user or the assistant.
pub open spec fn alternates(d: Seq<(Seq<char>, Seq<char>)>) -> bool {
    &&& forall|i: int| 0 <= i < d.len() ==> #[trigger] d[i].1 == assistant_role() || d[i].1 == user_role()
    &&& forall|i: int| 0 <= i < d.len() - 1 ==> #[trigger] d[i].1 != d[i + 1].1
}

proof fn roles_differ()
    ensures
        assistant_role() != user_role(),
{
    broadcast use vstd::string::group_string_axioms;
    reveal_strlit("assistant");
    reveal_strlit("user");
    assert(assistant_role().len() != user_role().len());
}

/// The messages of a built dialogue alternate between the user and the
/// assistant.
pub proof fn dialogue_alternates(ms: Seq<Message>, assistant_name: Seq<char>)
    ensures
        alternates(dialogue_of(ms, assistant_name)),
    decreases ms.len(),
{
    if ms.len() > 0 {
        dialogue_alternates(ms.drop_last(), assistant_name);
        let d = dialogue_of(ms.drop_last(), assistant_name);
        let e = dialogue_of(ms, assistant_name);
        assert(e == dialogue_step(d, ms.last(), assistant_name));
        match role_of(ms.last().from, assistant_name) {
            None => {},
            Some(role) => {
                if d.len() > 0 && d.last().1 == role {
                    assert forall|i: int| 0 <= i < e.len() implies #[trigger] e[i].1 == d[i].1 by {}
                    assert forall|i: int| 0 <= i < e.len() - 1 implies #[trigger] e[i].1 != e[i + 1].1 by {
                        assert(e[i].1 == d[i].1);
                        assert(e[i + 1].1 == d[i + 1].1);
                    }
                } else {
                    assert forall|i: int| 0 <= i < e.len() - 1 implies #[trigger] e[i].1 != e[i + 1].1 by {
                        if i < d.len() - 1 {
                            assert(e[i] == d[i]);
                            assert(e[i + 1] == d[i + 1]);
                        } else {
                            assert(e[i] == d.last());
                        }
                    }
                }
            },
        }
    }
}

/// A dialogue made to end with the assistant still alternates, ends with
/// the assistant, and differs from the original by at most one empty
/// assistant message at the end.
pub proof fn closed_dialogue_ends_with_assistant(d: Seq<(Seq<char>, Seq<char>)>)
    requires
        alternates(d),
    ensures
        alternates(closed_dialogue(d)),
        closed_dialogue(d).len() > 0 ==> closed_dialogue(d).last().1 == assistant_role(),
        closed_dialogue(d) == d || closed_dialogue(d) == d.push((Seq::empty(), assistant_role())),
{
    roles_differ();
    let c = closed_dialogue(d);
    if d.len() > 0 && d.last().1 != assistant_role() {
        assert forall|i: int| 0 <= i < c.len() - 1 implies #[trigger] c[i].1 != c[i + 1].1 by {
            if i < d.len() - 1 {
                assert(c[i] == d[i]);
                assert(c[i + 1] == d[i + 1]);
            } else {
                assert(c[i] == d.last());
            }
        }
        assert forall|i: int| 0 <= i < c.len() implies #[trigger] c[i].1 == assistant_role() || c[i].1 == user_role() by {
            if i < d.len() {
                assert(c[i] == d[i]);
            }
        }
    }
}

/// Serialised records joined into JSON Lines: a line break after every
/// record but the last.
pub open spec fn jsonl_join(lines: Seq<Seq<char>>) -> Seq<char>
    decreases lines.len(),
{
    if lines.len() == 0 {
        Seq::empty()
    } else if lines.len() == 1 {
        lines[0]
    } else {
        jsonl_join(lines.drop_last()) + seq!['\n'] + lines.last()
    }
}

/// The contents of a JSONL file holding the serialised dialogues.
pub fn jsonl_text(lines: &Vec<String>) -> (r: String)
    ensures
        r@ == jsonl_join(lines@.map_values(|l: String| l@)),
{
    let ghost views = lines@.map_values(|l: String| l@);
    let mut out = String::new();
    let mut i: usize = 0;
    while i < lines.len()
        invariant
            i <= lines.len(),
            views == lines@.map_values(|l: String| l@),
            out@ == jsonl_join(views.take(i as int)),
        decreases lines.len() - i,
    {
        if i > 0 {
            out.append("\n");
        }
        out.append(lines[i].as_str());
        proof {
            reveal_strlit("\n");
            let t = views.take(i + 1);
            assert(t.drop_last() =~= views.take(i as int));
            if i == 0 {
                assert(views.take(0) =~= Seq::<Seq<char>>::empty());
            }
        }
        i = i + 1;
    }
    assert(views.take(lines.len() as int) =~= views);
    out
}

/// The path of the JSONL file written at the given timestamp.
pub fn jsonl_file_name(timestamp: &str) -> (r: String)
    ensures
        r@ == "parsed_jsonl/"@ + timestamp@ + ".jsonl"@,
{
    let mut r = String::from_str("parsed_jsonl/");
    r.append(timestamp);
    r.append(".jsonl");
    r
}


/// The JSON object of one message, as the derived `Serialize` of
/// `PrivateMessage` writes it: its content, then its role.
pub open spec fn private_message_json(m: (Seq<char>, Seq<char>)) -> Seq<char> {
    "{\"content\":"@ + json_quoted(m.0) + ",\"role\":"@ + json_quoted(m.1) + "}"@
}

/// The message objects of a dialogue, separated by commas.
pub open spec fn messages_json(ms: Seq<(Seq<char>, Seq<char>)>) -> Seq<char>
    decreases ms.len(),
{
    if ms.len() == 0 {
        Seq::empty()
    } else if ms.len() == 1 {
        private_message_json(ms[0])
    } else {
        messages_json(ms.drop_last()) + ","@ + private_message_json(ms.last())
    }
}

/// The JSON text of a dialogue, one record of the training data.
pub open spec fn dialogue_json(d: Seq<(Seq<char>, Seq<char>)>) -> Seq<char> {
    "{\"messages\":["@ + messages_json(d) + "]}"@
}

impl PrivateDialogue {
    /// The dialogue as one JSON record, as `serde_json::to_string` writes
    /// the derived `Serialize`.
    pub fn to_json(&self) -> (r: String)
        ensures
            r@ == dialogue_json(self@),
    {
        let mut r = String::from_str("{\"messages\":[");
        let mut i: usize = 0;
        while i < self.messages.len()
            invariant
                i <= self.messages@.len(),
                self@.len() == self.messages@.len(),
                forall|j: int| 0 <= j < self@.len() ==> #[trigger] self@[j] == self.messages@[j]@,
                r@ == "{\"messages\":["@ + messages_json(self@.take(i as int)),
            decreases self.messages.len() - i,
        {
            let m = &self.messages[i];
            let ghost before = r@;
            if i > 0 {
                r.append(",");
            }
            r.append("{\"content\":");
            r.append(json_string(m.content.as_str()).as_str());
            r.append(",\"role\":");
            r.append(json_string(m.role.as_str()).as_str());
            r.append("}");
            proof {
                let t = self@.take(i + 1);
                assert(t.drop_last() =~= self@.take(i as int));
                assert(t.last() == m@);
                if i == 0 {
                    assert(self@.take(0) =~= Seq::<(Seq<char>, Seq<char>)>::empty());
                    assert(r@ =~= before + private_message_json(m@));
                } else {
                    assert(r@ =~= before + ","@ + private_message_json(m@));
                }
            }
            i = i + 1;
        }
        r.append("]}");
        assert(self@.take(self@.len() as int) =~= self@);
        r
    }
}


/// The lines of a text: the pieces between its line breaks, in order.
pub open spec fn split_lines(t: Seq<char>) -> Seq<Seq<char>>
    decreases t.len(),
{
    if t.len() == 0 {
        seq![Seq::<char>::empty()]
    } else {
        let rest = split_lines(t.drop_first());
        if t[0] == '\n' {
            seq![Seq::<char>::empty()] + rest
        } else {
            rest.update(0, seq![t[0]] + rest[0])
        }
    }
}

proof fn lemma_split_nonempty(t: Seq<char>)
    ensures
        split_lines(t).len() >= 1,
    decreases t.len(),
{
    if t.len() > 0 {
        lemma_split_nonempty(t.drop_first());
    }
}

proof fn lemma_split_single(a: Seq<char>)
    requires
        single_line(a),
    ensures
        split_lines(a) == seq![a],
    decreases a.len(),
{
    if a.len() > 0 {
        lemma_split_single(a.drop_first());
        assert(seq![a[0]] + a.drop_first() =~= a);
        assert(seq![a.drop_first()].update(0, a) =~= seq![a]);
    } else {
        assert(a =~= Seq::<char>::empty());
    }
}

proof fn lemma_split_concat(a: Seq<char>, b: Seq<char>)
    ensures
        split_lines(a + seq!['\n'] + b) == split_lines(a) + split_lines(b),
    decreases a.len(),
{
    let t = a + seq!['\n'] + b;
    if a.len() == 0 {
        assert(t.drop_first() =~= b);
        assert(a =~= Seq::<char>::empty());
        assert(split_lines(t) =~= split_lines(a) + split_lines(b));
    } else {
        let a1 = a.drop_first();
        assert(t.drop_first() =~= a1 + seq!['\n'] + b);
        assert(t[0] == a[0]);
        lemma_split_concat(a1, b);
        lemma_split_nonempty(a1);
        if a[0] == '\n' {
            assert(split_lines(t) =~= split_lines(a) + split_lines(b));
        } else {
            let x = seq![a[0]] + split_lines(a1)[0];
            assert((split_lines(a1) + split_lines(b)).update(0, x) =~= split_lines(a1).update(0, x)
                + split_lines(b));
        }
    }
}

/// Records without line breaks, joined into JSON Lines, are read back
/// one per line, in order.
pub proof fn jsonl_lines_read_back(lines: Seq<Seq<char>>)
    requires
        lines.len() > 0,
        forall|i: int| 0 <= i < lines.len() ==> single_line(#[trigger] lines[i]),
    ensures
        split_lines(jsonl_join(lines)) == lines,
    decreases lines.len(),
{
    if lines.len() == 1 {
        lemma_split_single(lines[0]);
        assert(seq![lines[0]] =~= lines);
    } else {
        let init = lines.drop_last();
        assert forall|i: int| 0 <= i < init.len() implies single_line(#[trigger] init[i]) by {
            assert(init[i] == lines[i]);
        }
        jsonl_lines_read_back(init);
        lemma_split_concat(jsonl_join(init), lines.last());
        lemma_split_single(lines.last());
        assert(init + seq![lines.last()] =~= lines);
    }
}


proof fn lemma_literals_single_line()
    ensures
        single_line("{\"messages\":["@),
        single_line("]}"@),
        single_line("{\"content\":"@),
        single_line(",\"role\":"@),
        single_line("}"@),
        single_line(","@),
{
    reveal_strlit("{\"messages\":[");
    reveal_strlit("]}");
    reveal_strlit("{\"content\":");
    reveal_strlit(",\"role\":");
    reveal_strlit("}");
    reveal_strlit(",");
    reveal_with_fuel(single_line, 16);
}

proof fn lemma_messages_json_single_line(ms: Seq<(Seq<char>, Seq<char>)>)
    ensures
        single_line(messages_json(ms)),
    decreases ms.len(),
{
    lemma_literals_single_line();
    if ms.len() > 0 {
        let m = ms.last();
        lemma_json_quoted_single_line(m.0);
        lemma_json_quoted_single_line(m.1);
        lemma_single_line_concat("{\"content\":"@, json_quoted(m.0));
        lemma_single_line_concat("{\"content\":"@ + json_quoted(m.0), ",\"role\":"@);
        lemma_single_line_concat("{\"content\":"@ + json_quoted(m.0) + ",\"role\":"@, json_quoted(m.1));
        lemma_single_line_concat(
            "{\"content\":"@ + json_quoted(m.0) + ",\"role\":"@ + json_quoted(m.1),
            "}"@,
        );
        if ms.len() > 1 {
            lemma_messages_json_single_line(ms.drop_last());
            lemma_single_line_concat(messages_json(ms.drop_last()), ","@);
            lemma_single_line_concat(messages_json(ms.drop_last()) + ","@, private_message_json(m));
        }
    } else {
        reveal_with_fuel(single_line, 1);
    }
}

/// Each dialogue is one line of the JSONL file: the dialogues' records,
/// joined into JSON Lines, are read back one per line, in order.
pub proof fn dialogue_records_one_per_line(ds: Seq<Seq<(Seq<char>, Seq<char>)>>)
    requires
        ds.len() > 0,
    ensures
        split_lines(jsonl_join(ds.map_values(|d: Seq<(Seq<char>, Seq<char>)>| dialogue_json(d))))
            == ds.map_values(|d: Seq<(Seq<char>, Seq<char>)>| dialogue_json(d)),
{
    let lines = ds.map_values(|d: Seq<(Seq<char>, Seq<char>)>| dialogue_json(d));
    lemma_literals_single_line();
    assert forall|i: int| 0 <= i < lines.len() implies single_line(#[trigger] lines[i]) by {
        let d = ds[i];
        lemma_messages_json_single_line(d);
        lemma_single_line_concat("{\"messages\":["@, messages_json(d));
        lemma_single_line_concat("{\"messages\":["@ + messages_json(d), "]}"@);
    }
    jsonl_lines_read_back(lines);
}


/// No text of an exported message is lost. A message without sender
/// leaves the dialogue as it was. A message from the sender of the last
/// turn, whichever side that is, extends that turn: its old content is a
/// prefix of the new one, which is the old content followed by a line
/// break and the message's text, and every earlier turn stays. A message
/// from the other side adds a turn holding its text.
pub proof fn dialogue_keeps_every_text(ms: Seq<Message>, m: Message, assistant_name: Seq<char>)
    ensures
        ({
            let d = dialogue_of(ms, assistant_name);
            let e = dialogue_of(ms.push(m), assistant_name);
            match role_of(m.from, assistant_name) {
                None => e == d,
                Some(role) => if d.len() > 0 && d.last().1 == role {
                    &&& e.len() == d.len()
                    &&& forall|i: int| 0 <= i < d.len() - 1 ==> #[trigger] e[i] == d[i]
                    &&& e.last().1 == role
                    &&& d.last().0.len() <= e.last().0.len()
                    &&& e.last().0.subrange(0, d.last().0.len() as int) == d.last().0
                    &&& e.last().0 == d.last().0 + concat_suffix(m.text)
                } else {
                    &&& e.len() == d.len() + 1
                    &&& forall|i: int| 0 <= i < d.len() ==> #[trigger] e[i] == d[i]
                    &&& e.last() == (text_string(m.text), role)
                },
            }
        }),
{
    let d = dialogue_of(ms, assistant_name);
    assert(ms.push(m).drop_last() =~= ms);
    assert(ms.push(m).last() == m);
    match role_of(m.from, assistant_name) {
        None => {},
        Some(role) => {
            if d.len() > 0 && d.last().1 == role {
                let e = dialogue_of(ms.push(m), assistant_name);
                assert(e.last().0.subrange(0, d.last().0.len() as int) =~= d.last().0);
            }
        },
    }
}

/// The message objects of a dialogue are those of its first part, a
/// comma, then those of the rest: every message of a dialogue is written
/// into its record, in order, none dropped or repeated.
pub proof fn messages_json_concat(a: Seq<(Seq<char>, Seq<char>)>, b: Seq<(Seq<char>, Seq<char>)>)
    requires
        a.len() > 0,
        b.len() > 0,
    ensures
        messages_json(a + b) == messages_json(a) + ","@ + messages_json(b),
    decreases b.len(),
{
    let ab = a + b;
    if b.len() == 1 {
        assert(ab.drop_last() =~= a);
        assert(ab.last() == b[0]);
    } else {
        messages_json_concat(a, b.drop_last());
        assert(ab.drop_last() =~= a + b.drop_last());
        assert(ab.last() == b.last());
        assert(messages_json(ab) =~= messages_json(a) + ","@ + messages_json(b));
    }
}

} // verus!
