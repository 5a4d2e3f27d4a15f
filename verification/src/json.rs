//! JSON text: string literals as `serde_json` writes them, the framing of
//! the objects the bot sends, and reading the `@type` of what it receives.
use vstd::prelude::*;

verus! {

/// The lowercase hexadecimal digit for `d` (0..=15).
pub open spec fn hex_digit(d: int) -> char {
    if d == 0 {
        '0'
    } else if d == 1 {
        '1'
    } else if d == 2 {
        '2'
    } else if d == 3 {
        '3'
    } else if d == 4 {
        '4'
    } else if d == 5 {
        '5'
    } else if d == 6 {
        '6'
    } else if d == 7 {
        '7'
    } else if d == 8 {
        '8'
    } else if d == 9 {
        '9'
    } else if d == 10 {
        'a'
    } else if d == 11 {
        'b'
    } else if d == 12 {
        'c'
    } else if d == 13 {
        'd'
    } else if d == 14 {
        'e'
    } else {
        'f'
    }
}

/// How `serde_json` writes one character inside a string literal: quote
/// and backslash behind a backslash, the usual short escapes, the other
/// control characters as `\u00XX`, every other character as itself.
pub open spec fn json_escape_char(c: char) -> Seq<char> {
    if c == '"' {
        seq!['\\', '"']
    } else if c == '\\' {
        seq!['\\', '\\']
    } else if c == '\x08' {
        seq!['\\', 'b']
    } else if c == '\t' {
        seq!['\\', 't']
    } else if c == '\n' {
        seq!['\\', 'n']
    } else if c == '\x0c' {
        seq!['\\', 'f']
    } else if c == '\r' {
        seq!['\\', 'r']
    } else if (c as int) < 0x20 {
        seq!['\\', 'u', '0', '0', hex_digit((c as int) / 16), hex_digit((c as int) % 16)]
    } else {
        seq![c]
    }
}

/// The escaped contents of a JSON string literal for `s`.
pub open spec fn json_escaped(s: Seq<char>) -> Seq<char>
    decreases s.len(),
{
    if s.len() == 0 {
        Seq::empty()
    } else {
        json_escaped(s.drop_last()) + json_escape_char(s.last())
    }
}

/// The JSON string literal for `s`, quotes included.
pub open spec fn json_quoted(s: Seq<char>) -> Seq<char> {
    seq!['"'] + json_escaped(s) + seq!['"']
}

/// `serde_json::to_string` of a string slice. Trusted: the result is the
/// quoted literal with `serde_json`'s escapes (its `ESCAPE` table and
/// `write_char_escape`); serialising a `str` never fails.
#[verifier::external_body]
pub fn json_string(s: &str) -> (r: String)
    ensures
        r@ == json_quoted(s@),
{
    serde_json::to_string(s).unwrap_or_default()
}

/// What `serde_json` reads from a text as the `@type` member of a JSON
/// value: `None` where the text is not JSON, `Some(None)` where the value
/// has no string member `@type`, else that member's text.
pub uninterp spec fn json_type_member(text: Seq<char>) -> Option<Option<Seq<char>>>;

/// Reads the `@type` member of a JSON text with `serde_json` (`from_str`
/// into a `Value`, then `get("@type")` and `as_str`). Trusted: the result
/// is `json_type_member` of the text, which depends on the text alone.
#[verifier::external_body]
pub fn json_td_type(text: &str) -> (r: Option<Option<String>>)
    ensures
        match r {
            None => json_type_member(text@) is None,
            Some(None) => json_type_member(text@) == Some(None::<Seq<char>>),
            Some(Some(t)) => json_type_member(text@) == Some(Some(t@)),
        },
{
    match serde_json::from_str::<serde_json::Value>(text) {
        Ok(v) => Some(v.get("@type").and_then(|t| t.as_str()).map(|t| t.to_string())),
        Err(_) => None,
    }
}


/// Whether a text holds no line break.
pub open spec fn single_line(s: Seq<char>) -> bool
    decreases s.len(),
{
    s.len() == 0 || (s[0] != '\n' && single_line(s.drop_first()))
}

/// Two texts without line breaks make one without.
pub proof fn lemma_single_line_concat(a: Seq<char>, b: Seq<char>)
    requires
        single_line(a),
        single_line(b),
    ensures
        single_line(a + b),
    decreases a.len(),
{
    if a.len() > 0 {
        lemma_single_line_concat(a.drop_first(), b);
        assert((a + b).drop_first() =~= a.drop_first() + b);
    } else {
        assert(a + b =~= b);
    }
}

/// A JSON string literal holds no line break: `serde_json` escapes it.
pub proof fn lemma_json_quoted_single_line(s: Seq<char>)
    ensures
        single_line(json_quoted(s)),
{
    lemma_json_escaped_single_line(s);
    reveal_with_fuel(single_line, 2);
    lemma_single_line_concat(seq!['"'], json_escaped(s));
    lemma_single_line_concat(seq!['"'] + json_escaped(s), seq!['"']);
}

proof fn lemma_single_line_of(s: Seq<char>)
    requires
        forall|i: int| 0 <= i < s.len() ==> s[i] != '\n',
    ensures
        single_line(s),
    decreases s.len(),
{
    if s.len() > 0 {
        assert forall|i: int| 0 <= i < s.drop_first().len() implies s.drop_first()[i] != '\n' by {
            assert(s.drop_first()[i] == s[i + 1]);
        }
        lemma_single_line_of(s.drop_first());
    }
}

proof fn lemma_json_escaped_single_line(s: Seq<char>)
    ensures
        single_line(json_escaped(s)),
    decreases s.len(),
{
    if s.len() > 0 {
        lemma_json_escaped_single_line(s.drop_last());
        let c = s.last();
        let e = json_escape_char(c);
        if c == '"' || c == '\\' || c == '\x08' || c == '\t' || c == '\n' || c == '\x0c' || c
            == '\r' {
            assert(e.len() == 2 && e[0] == '\\' && e[1] != '\n');
        } else if (c as int) < 0x20 {
            let h = hex_digit((c as int) / 16);
            let l = hex_digit((c as int) % 16);
            assert(h != '\n' && l != '\n');
            assert(e =~= seq!['\\', 'u', '0', '0', h, l]);
        } else {
            assert(e =~= seq![c]);
        }
        assert forall|i: int| 0 <= i < e.len() implies e[i] != '\n' by {
            if i == 0 {
            } else if i == 1 {
            } else if i == 2 {
            } else if i == 3 {
            } else if i == 4 {
            } else {
            }
        }
        lemma_single_line_of(e);
        lemma_single_line_concat(json_escaped(s.drop_last()), e);
    } else {
        reveal_with_fuel(single_line, 1);
    }
}

} // verus!
