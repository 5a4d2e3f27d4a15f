//! Reading profile photos: base64 text of an image, and retrying a photo
//! that is not downloaded yet.
use vstd::prelude::*;
use crate::error::BotError;
use base64::Engine;

verus! {

/// The base64 character for a six-bit value (standard alphabet).
pub open spec fn base64_char(v: int) -> char {
    if v < 26 {
        (65 + v) as char
    } else if v < 52 {
        (71 + v) as char
    } else if v < 62 {
        (v - 4) as char
    } else if v == 62 {
        '+'
    } else {
        '/'
    }
}

/// The standard base64 text of bytes, with `=` padding (RFC 4648).
pub open spec fn base64_text(b: Seq<u8>) -> Seq<char>
    decreases b.len(),
{
    if b.len() == 0 {
        Seq::empty()
    } else if b.len() == 1 {
        let b0 = b[0] as int;
        seq![base64_char(b0 / 4), base64_char((b0 % 4) * 16), '=', '=']
    } else if b.len() == 2 {
        let b0 = b[0] as int;
        let b1 = b[1] as int;
        seq![
            base64_char(b0 / 4),
            base64_char((b0 % 4) * 16 + b1 / 16),
            base64_char((b1 % 16) * 4),
            '=',
        ]
    } else {
        let b0 = b[0] as int;
        let b1 = b[1] as int;
        let b2 = b[2] as int;
        seq![
            base64_char(b0 / 4),
            base64_char((b0 % 4) * 16 + b1 / 16),
            base64_char((b1 % 16) * 4 + b2 / 64),
            base64_char(b2 % 64),
        ] + base64_text(b.subrange(3, b.len() as int))
    }
}

/// The six-bit value of a character of the standard base64 alphabet.
pub open spec fn base64_value(c: char) -> int {
    let u = c as u32 as int;
    if 65 <= u <= 90 {
        u - 65
    } else if 97 <= u <= 122 {
        u - 71
    } else if 48 <= u <= 57 {
        u + 4
    } else if c == '+' {
        62
    } else {
        63
    }
}

/// The bytes of a padded standard base64 text, read four characters at
/// a time (RFC 4648 decoding).
pub open spec fn base64_decode(t: Seq<char>) -> Seq<u8>
    decreases t.len(),
{
    if t.len() < 4 {
        Seq::empty()
    } else {
        let a = base64_value(t[0]);
        let b = base64_value(t[1]);
        let c = base64_value(t[2]);
        let d = base64_value(t[3]);
        let first = (a * 4 + b / 16) as u8;
        if t[2] == '=' {
            seq![first]
        } else if t[3] == '=' {
            seq![first, ((b % 16) * 16 + c / 4) as u8]
        } else {
            seq![first, ((b % 16) * 16 + c / 4) as u8, ((c % 4) * 64 + d) as u8] + base64_decode(
                t.subrange(4, t.len() as int),
            )
        }
    }
}

proof fn lemma_base64_char_value(v: int)
    requires
        0 <= v < 64,
    ensures
        base64_value(base64_char(v)) == v,
        base64_char(v) != '=',
{
    assert(('=' as u32) == 61);
    assert(('+' as u32) == 43);
    assert(('/' as u32) == 47);
    if v < 26 {
        assert(((65 + v) as char) as u32 == 65 + v);
    } else if v < 52 {
        assert(((71 + v) as char) as u32 == 71 + v);
    } else if v < 62 {
        assert(((v - 4) as char) as u32 == v - 4);
    }
}

/// Decoding undoes the encoding: the bytes read back from the base64 text
/// of some bytes are those bytes.
pub proof fn base64_round_trip(bytes: Seq<u8>)
    ensures
        base64_decode(base64_text(bytes)) == bytes,
    decreases bytes.len(),
{
    let t = base64_text(bytes);
    if bytes.len() == 0 {
        assert(bytes =~= Seq::<u8>::empty());
    } else if bytes.len() == 1 {
        let b0 = bytes[0] as int;
        lemma_base64_char_value(b0 / 4);
        lemma_base64_char_value((b0 % 4) * 16);
        assert(((b0 / 4) * 4 + ((b0 % 4) * 16) / 16) == b0);
        assert(base64_decode(t) =~= bytes);
    } else if bytes.len() == 2 {
        let b0 = bytes[0] as int;
        let b1 = bytes[1] as int;
        let x = (b0 % 4) * 16 + b1 / 16;
        let y = (b1 % 16) * 4;
        lemma_base64_char_value(b0 / 4);
        lemma_base64_char_value(x);
        lemma_base64_char_value(y);
        assert((b0 / 4) * 4 + x / 16 == b0);
        assert((x % 16) * 16 + y / 4 == b1);
        assert(base64_decode(t) =~= bytes);
    } else {
        let b0 = bytes[0] as int;
        let b1 = bytes[1] as int;
        let b2 = bytes[2] as int;
        let x = (b0 % 4) * 16 + b1 / 16;
        let y = (b1 % 16) * 4 + b2 / 64;
        let z = b2 % 64;
        lemma_base64_char_value(b0 / 4);
        lemma_base64_char_value(x);
        lemma_base64_char_value(y);
        lemma_base64_char_value(z);
        assert((b0 / 4) * 4 + x / 16 == b0);
        assert((x % 16) * 16 + y / 4 == b1);
        assert((y % 4) * 64 + z == b2);
        let rest = bytes.subrange(3, bytes.len() as int);
        base64_round_trip(rest);
        let head = seq![base64_char(b0 / 4), base64_char(x), base64_char(y), base64_char(z)];
        assert(t == head + base64_text(rest));
        assert(t.subrange(4, t.len() as int) =~= base64_text(rest));
        assert(seq![bytes[0], bytes[1], bytes[2]] + rest =~= bytes);
        assert(base64_decode(t) =~= bytes);
    }
}

/// `BASE64_STANDARD.encode(bytes)` of the `base64` crate. Trusted: the
/// standard alphabet with padding, as RFC 4648 defines it.
#[verifier::external_body]
pub fn encode_base64(bytes: &[u8]) -> (r: String)
    ensures
        r@ == base64_text(bytes@),
{
    base64::prelude::BASE64_STANDARD.encode(bytes)
}

/// How many times a photo is read before the review gives up.
pub const MAX_ATTEMPTS: u32 = 3;

/// The reads of a photo made so far.
#[derive(Debug)]
pub struct ImageRetry {
    attempts: u32,
}

/// What to do after a failed read.
#[derive(Debug)]
pub enum RetryStep {
    /// Wait two seconds and read again.
    Wait,
    /// Give up with this error.
    GiveUp(BotError),
}

impl View for ImageRetry {
    type V = nat;

    closed spec fn view(&self) -> nat {
        self.attempts as nat
    }
}

impl ImageRetry {
    /// No failed read yet.
    pub fn new() -> (r: ImageRetry)
        ensures
            r@ == 0,
    {
        ImageRetry { attempts: 0 }
    }

    /// After a failed read of the photo at `path`: one more failure is
    /// counted, and the review gives up at the third.
    pub fn on_failure(&mut self, path: &str) -> (r: RetryStep)
        requires
            old(self)@ < MAX_ATTEMPTS,
        ensures
            final(self)@ == old(self)@ + 1,
            final(self)@ >= MAX_ATTEMPTS ==> (r matches RetryStep::GiveUp(BotError::ImageTimedOut { path: p })
                && p@ == path@),
            final(self)@ < MAX_ATTEMPTS ==> r is Wait,
    {
        self.attempts = self.attempts + 1;
        if self.attempts >= MAX_ATTEMPTS {
            RetryStep::GiveUp(BotError::ImageTimedOut { path: String::from_str(path) })
        } else {
            RetryStep::Wait
        }
    }
}

/// From no failure, the first two failed reads wait and the third gives up.
pub proof fn retry_gives_up_at_third(a: nat)
    requires
        a < MAX_ATTEMPTS,
    ensures
        a + 1 >= MAX_ATTEMPTS <==> a == 2,
{
}

} // verus!
