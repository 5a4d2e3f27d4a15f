//! Finding mutual likes in the dating bot's messages.
use vstd::prelude::*;
use crate::entities::profile_match::ProfileMatch;
use crate::td::td_message::{MessageMeta, match_announcement};
use crate::text::seq_contains;

verus! {

/// Looks for mutual likes among the stored messages.
pub struct MatchAnalyzer {}

impl MatchAnalyzer {
    /// The offsets of the history reads made at start: `1, 2, .., limit - 1`.
    pub fn read_offsets(limit: i32) -> (r: Vec<i32>)
        ensures
            r@.len() == (if limit > 1 {
                limit - 1
            } else {
                0
            }),
            forall|i: int| 0 <= i < r@.len() ==> #[trigger] r@[i] == i + 1,
    {
        let mut r: Vec<i32> = Vec::new();
        let mut i: i32 = 1;
        while i < limit
            invariant
                1 <= i,
                i <= limit || (limit < 1 && i == 1),
                r@.len() == i - 1,
                forall|k: int| 0 <= k < r@.len() ==> #[trigger] r@[k] == k + 1,
            decreases limit - i,
        {
            r.push(i);
            i = i + 1;
        }
        r
    }

    /// The mutual like a stored message records: where it announces one
    /// and has a link, the link with the message text.
    pub fn match_of(parsed_message: &MessageMeta) -> (r: Option<ProfileMatch>)
        ensures
            (seq_contains(parsed_message.spec_text(), match_announcement())
                && parsed_message.spec_url() is Some) ==> (r matches Some(m) && m.url@
                == parsed_message.spec_url()->0 && m.full_text@ == parsed_message.spec_text()),
            !(seq_contains(parsed_message.spec_text(), match_announcement())
                && parsed_message.spec_url() is Some) ==> r is None,
    {
        if parsed_message.is_match() {
            match parsed_message.url() {
                Some(url) => {
                    return Some(
                        ProfileMatch { url: url.clone(), full_text: parsed_message.text().clone() },
                    );
                },
                None => {},
            }
        }
        None
    }
}

} // verus!
