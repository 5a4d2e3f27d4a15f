//! Reading a secret from a key-value store's answer.
use vstd::prelude::*;
use crate::text::{chars_of, string_from_chars};

verus! {

/// A text without its double quotes.
pub open spec fn without_quotes(s: Seq<char>) -> Seq<char> {
    s.filter(|c: char| c != '"')
}

/// The secret's text from the JSON text of its value: the double quotes
/// removed.
pub fn strip_quotes(value_json: &str) -> (r: String)
    ensures
        r@ == without_quotes(value_json@),
{
    let cs = chars_of(value_json);
    let mut out: Vec<char> = Vec::new();
    let mut i: usize = 0;
    while i < cs.len()
        invariant
            i <= cs.len(),
            cs@ == value_json@,
            out@ == without_quotes(cs@.take(i as int)),
        decreases cs.len() - i,
    {
        proof {
            reveal_with_fuel(Seq::filter, 1);
            assert(cs@.take(i + 1).drop_last() =~= cs@.take(i as int));
        }
        if cs[i] != '"' {
            out.push(cs[i]);
        }
        i = i + 1;
    }
    assert(cs@.take(cs.len() as int) =~= cs@);
    string_from_chars(out.as_slice())
}

} // verus!
