//! Random identifiers (UUID version 4) and their text.
use vstd::prelude::*;
use crate::text::push_char;

verus! {

/// The `n` lowest hexadecimal digits of `u`, most significant first.
pub open spec fn hex_digits(u: nat, n: nat) -> Seq<char>
    decreases n,
{
    if n == 0 {
        Seq::empty()
    } else {
        hex_digits(u / 16, (n - 1) as nat).push(crate::json::hex_digit((u % 16) as int))
    }
}

/// The hyphenated lowercase text of a UUID given as its 128-bit
/// big-endian value: 8-4-4-4-12 hexadecimal digits.
pub open spec fn uuid_text(u: u128) -> Seq<char> {
    let h = hex_digits(u as nat, 32);
    h.subrange(0, 8) + seq!['-'] + h.subrange(8, 12) + seq!['-'] + h.subrange(12, 16) + seq!['-']
        + h.subrange(16, 20) + seq!['-'] + h.subrange(20, 32)
}

/// Whether a UUID, given as its 128-bit value, is of version 4: its
/// thirteenth hexadecimal digit is 4.
pub open spec fn is_uuid_v4(u: u128) -> bool {
    hex_digits(u as nat, 32)[12] == '4'
}

/// A fresh random UUID (`uuid::Uuid::new_v4`), as its 128-bit value.
/// Trusted: its version digit is 4; the rest is random and not stated.
#[verifier::external_body]
pub fn new_uuid_v4() -> (r: u128)
    ensures
        is_uuid_v4(r),
{
    uuid::Uuid::new_v4().as_u128()
}

fn hex_char(d: u8) -> (c: char)
    requires
        d < 16,
    ensures
        c == crate::json::hex_digit(d as int),
{
    if d == 0 {
        '0'
    } else if d == 1 {
        '1'
    } else if d == 2 {
        '2'
    } else if d == 3 {
        '3'
    } else if d == 4 {
        '4'
    } else if d == 5 {
        '5'
    } else if d == 6 {
        '6'
    } else if d == 7 {
        '7'
    } else if d == 8 {
        '8'
    } else if d == 9 {
        '9'
    } else if d == 10 {
        'a'
    } else if d == 11 {
        'b'
    } else if d == 12 {
        'c'
    } else if d == 13 {
        'd'
    } else if d == 14 {
        'e'
    } else {
        'f'
    }
}

/// Appends the characters `v[lo..hi]` to `r`.
pub(crate) fn push_range(r: &mut String, v: &Vec<char>, lo: usize, hi: usize)
    requires
        lo <= hi <= v.len(),
    ensures
        final(r)@ == old(r)@ + v@.subrange(lo as int, hi as int),
{
    let mut i: usize = lo;
    while i < hi
        invariant
            lo <= i <= hi <= v.len(),
            r@ == old(r)@ + v@.subrange(lo as int, i as int),
        decreases hi - i,
    {
        push_char(r, v[i]);
        assert(v@.subrange(lo as int, i + 1) =~= v@.subrange(lo as int, i as int).push(v@[i as int]));
        i = i + 1;
    }
}

/// The hyphenated lowercase text of a UUID, as `uuid::Uuid`'s `Display`
/// writes it.
pub fn uuid_to_string(u: u128) -> (r: String)
    ensures
        r@ == uuid_text(u),
{
    let mut digits: Vec<char> = Vec::new();
    let mut rest: u128 = u;
    let mut k: usize = 0;
    while k < 32
        invariant
            k <= 32,
            digits@.len() == k,
            hex_digits(u as nat, 32) == hex_digits(rest as nat, (32 - k) as nat) + digits@,
        decreases 32 - k,
    {
        let d: u8 = (rest % 16) as u8;
        let c = hex_char(d);
        proof {
            let n = (32 - k) as nat;
            assert(hex_digits(rest as nat, n) == hex_digits(rest as nat / 16, (n - 1) as nat).push(c));
        }
        let mut one: Vec<char> = Vec::new();
        one.push(c);
        one.append(&mut digits);
        digits = one;
        rest = rest / 16;
        k = k + 1;
        proof {
            assert(hex_digits(u as nat, 32) == hex_digits(rest as nat, (32 - k) as nat) + digits@);
        }
    }
    assert(hex_digits(rest as nat, 0) =~= Seq::<char>::empty());
    assert(hex_digits(u as nat, 32) =~= digits@);
    let mut r = String::new();
    push_range(&mut r, &digits, 0, 8);
    push_char(&mut r, '-');
    push_range(&mut r, &digits, 8, 12);
    push_char(&mut r, '-');
    push_range(&mut r, &digits, 12, 16);
    push_char(&mut r, '-');
    push_range(&mut r, &digits, 16, 20);
    push_char(&mut r, '-');
    push_range(&mut r, &digits, 20, 32);
    assert(r@ =~= uuid_text(u));
    r
}

} // verus!
