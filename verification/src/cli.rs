//! The console menu.
use vstd::prelude::*;
use crate::text::{chars_of, str_eq, trim, trim_spec};

verus! {

/// The menu's options.
#[derive(Debug, Clone, Copy, PartialEq, Eq, Structural)]
pub enum MenuChoice {
    /// Turn the exported chats into training data, then leave the menu.
    TransformChats,
    /// Send prompts to the fine-tuned model.
    Prompt,
    /// Not an option: ask again.
    Invalid,
}

/// The option chosen by a typed line: `1` or `2` once surrounding white
/// space is removed.
pub open spec fn menu_choice_of(line: Seq<char>) -> MenuChoice {
    if trim_spec(line) == "1"@ {
        MenuChoice::TransformChats
    } else if trim_spec(line) == "2"@ {
        MenuChoice::Prompt
    } else {
        MenuChoice::Invalid
    }
}

/// The option chosen by a typed line.
pub fn menu_choice(line: &str) -> (r: MenuChoice)
    ensures
        r == menu_choice_of(line@),
{
    let t = trim(line);
    if str_eq(t.as_str(), "1") {
        MenuChoice::TransformChats
    } else if str_eq(t.as_str(), "2") {
        MenuChoice::Prompt
    } else {
        MenuChoice::Invalid
    }
}

/// Whether `s` ends with `suffix`.
pub open spec fn ends_with(s: Seq<char>, suffix: Seq<char>) -> bool {
    suffix.len() <= s.len() && s.subrange(s.len() - suffix.len(), s.len() as int) == suffix
}

/// Whether a file of the exported chats' folder is a chat export: its
/// name ends with `.json`.
pub fn is_chat_export(file_name: &str) -> (r: bool)
    ensures
        r == ends_with(file_name@, ".json"@),
{
    let s = chars_of(file_name);
    let suffix = chars_of(".json");
    if suffix.len() > s.len() {
        return false;
    }
    let start = s.len() - suffix.len();
    let mut i: usize = 0;
    while i < suffix.len()
        invariant
            s@ == file_name@,
            suffix@ == ".json"@,
            start == s.len() - suffix.len(),
            i <= suffix.len(),
            forall|k: int| 0 <= k < i ==> s@[start + k] == suffix@[k],
        decreases suffix.len() - i,
    {
        if s[start + i] != suffix[i] {
            assert(s@.subrange(start as int, s.len() as int)[i as int] != suffix@[i as int]);
            return false;
        }
        i = i + 1;
    }
    assert(s@.subrange(start as int, s.len() as int) =~= suffix@);
    true
}

} // verus!
