//! Character-level text helpers: building strings, decimal numbers,
//! integer parsing and substring search.
use vstd::prelude::*;

verus! {

/// Appends one character to a `String` (`String::push`).
/// Trusted: the result is the old contents followed by `c`.
#[verifier::external_body]
pub(crate) fn push_char(s: &mut String, c: char)
    ensures
        final(s)@ == old(s)@.push(c),
{
    s.push(c)
}

/// The characters of a string slice, in order.
pub fn chars_of(s: &str) -> (r: Vec<char>)
    ensures
        r@ == s@,
{
    let mut r: Vec<char> = Vec::new();
    for c in it: s.chars()
        invariant
            r@ == it.seq().take(it.index() as int),
    {
        r.push(c);
    }
    r
}

/// A string made of the given characters, in order.
pub fn string_from_chars(v: &[char]) -> (r: String)
    ensures
        r@ == v@,
{
    let mut r = String::new();
    let mut i: usize = 0;
    while i < v.len()
        invariant
            i <= v.len(),
            r@ == v@.take(i as int),
        decreases v.len() - i,
    {
        push_char(&mut r, v[i]);
        assert(v@.take(i as int).push(v@[i as int]) =~= v@.take(i + 1));
        i = i + 1;
    }
    assert(v@.take(v.len() as int) =~= v@);
    r
}


/// The ASCII digit character for `d` (0..=9).
pub open spec fn digit_char(d: int) -> char {
    (48 + d) as char
}

/// The decimal digits of a natural number, most significant first,
/// without leading zeros (`"0"` for zero).
pub open spec fn nat_digits(n: nat) -> Seq<char>
    decreases n,
{
    if n < 10 {
        seq![digit_char(n as int)]
    } else {
        nat_digits(n / 10).push(digit_char((n % 10) as int))
    }
}

/// The decimal text of an integer, as `Display` writes it: a `-` before
/// the digits of a negative number.
pub open spec fn int_decimal(n: int) -> Seq<char> {
    if n < 0 {
        seq!['-'] + nat_digits((-n) as nat)
    } else {
        nat_digits(n as nat)
    }
}

fn digits_of(n: u64) -> (r: Vec<char>)
    ensures
        r@ == nat_digits(n as nat),
    decreases n,
{
    let d: u8 = (n % 10) as u8;
    let c: char = (48u8 + d) as char;
    if n < 10 {
        let mut v: Vec<char> = Vec::new();
        v.push(c);
        v
    } else {
        let mut v = digits_of(n / 10);
        v.push(c);
        v
    }
}

/// The decimal text of an unsigned integer.
pub fn u64_to_decimal(n: u64) -> (r: String)
    ensures
        r@ == int_decimal(n as int),
{
    let v = digits_of(n);
    string_from_chars(v.as_slice())
}

/// The decimal text of a signed integer, as `i64::to_string` gives it.
pub fn i64_to_decimal(n: i64) -> (r: String)
    ensures
        r@ == int_decimal(n as int),
{
    if n < 0 {
        let magnitude: u64 = ((-(n + 1)) as u64) + 1;
        let mut v: Vec<char> = Vec::new();
        v.push('-');
        let mut d = digits_of(magnitude);
        v.append(&mut d);
        string_from_chars(v.as_slice())
    } else {
        u64_to_decimal(n as u64)
    }
}

/// Whether `c` is an ASCII decimal digit.
pub open spec fn is_ascii_digit(c: char) -> bool {
    '0' <= c && c <= '9'
}

/// Whether every character of `s` is an ASCII decimal digit.
pub open spec fn all_ascii_digits(s: Seq<char>) -> bool {
    forall|i: int| 0 <= i < s.len() ==> is_ascii_digit(#[trigger] s[i])
}

/// The value of a run of decimal digits.
pub open spec fn digits_value(s: Seq<char>) -> int
    decreases s.len(),
{
    if s.len() == 0 {
        0
    } else {
        digits_value(s.drop_last()) * 10 + (s.last() as int - 48)
    }
}

/// The integer written by `s` in the syntax that `str::parse` accepts
/// for integers: an optional sign (`-` only where `signed`) and one or
/// more ASCII digits; `None` where `s` is not such a text.
pub open spec fn integer_literal(s: Seq<char>, signed: bool) -> Option<int> {
    if s.len() == 0 {
        None
    } else if s[0] == '+' || (signed && s[0] == '-') {
        let d = s.drop_first();
        if d.len() > 0 && all_ascii_digits(d) {
            if s[0] == '-' {
                Some(-digits_value(d))
            } else {
                Some(digits_value(d))
            }
        } else {
            None
        }
    } else if all_ascii_digits(s) {
        Some(digits_value(s))
    } else {
        None
    }
}

/// What `str::parse` gives for an integer type whose values are
/// `min..=max`: the value where `s` is an integer literal in range.
pub open spec fn parse_integer(s: Seq<char>, signed: bool, min: int, max: int) -> Option<int> {
    match integer_literal(s, signed) {
        Some(v) => if min <= v && v <= max {
            Some(v)
        } else {
            None
        },
        None => None,
    }
}

proof fn lemma_digits_value_nonneg(s: Seq<char>)
    requires
        all_ascii_digits(s),
    ensures
        digits_value(s) >= 0,
    decreases s.len(),
{
    if s.len() > 0 {
        assert(all_ascii_digits(s.drop_last()));
        lemma_digits_value_nonneg(s.drop_last());
        assert(is_ascii_digit(s[s.len() - 1]));
    }
}

proof fn lemma_digits_value_grows(s: Seq<char>, k: int)
    requires
        all_ascii_digits(s),
        0 <= k <= s.len(),
    ensures
        digits_value(s.take(k)) <= digits_value(s),
    decreases s.len() - k,
{
    if k < s.len() {
        lemma_digits_value_grows(s, k + 1);
        let t = s.take(k + 1);
        assert(t.drop_last() =~= s.take(k));
        assert(all_ascii_digits(s.take(k)));
        lemma_digits_value_nonneg(s.take(k));
        assert(is_ascii_digit(s[k]));
    } else {
        assert(s.take(k) =~= s);
    }
}

/// Parses the digits `cs[start..]` into a magnitude of at most `bound`.
fn digits_up_to(cs: &Vec<char>, start: usize, bound: u64) -> (r: Option<u64>)
    requires
        start <= cs.len(),
    ensures
        ({
            let d = cs@.subrange(start as int, cs.len() as int);
            match r {
                Some(v) => all_ascii_digits(d) && v == digits_value(d) && v <= bound,
                None => !all_ascii_digits(d) || digits_value(d) > bound,
            }
        }),
{
    let ghost d = cs@.subrange(start as int, cs.len() as int);
    let mut i: usize = start;
    while i < cs.len()
        invariant
            start <= i <= cs.len(),
            d == cs@.subrange(start as int, cs.len() as int),
            forall|j: int| 0 <= j < i - start ==> is_ascii_digit(#[trigger] d[j]),
        decreases cs.len() - i,
    {
        if !('0' <= cs[i] && cs[i] <= '9') {
            assert(!is_ascii_digit(d[i - start]));
            return None;
        }
        i = i + 1;
    }
    assert(all_ascii_digits(d));
    let mut acc: u64 = 0;
    let mut i: usize = start;
    while i < cs.len()
        invariant
            start <= i <= cs.len(),
            d == cs@.subrange(start as int, cs.len() as int),
            all_ascii_digits(d),
            acc <= bound,
            acc == digits_value(d.take(i - start)),
        decreases cs.len() - i,
    {
        let c = cs[i];
        assert(c == d[i - start]);
        assert(is_ascii_digit(d[i - start]));
        let digit: u64 = ((c as u32) - 48) as u64;
        let next: u128 = (acc as u128) * 10 + (digit as u128);
        proof {
            let t = d.take(i - start + 1);
            assert(t.drop_last() =~= d.take(i - start));
            assert(t.last() == c);
        }
        if next > bound as u128 {
            proof {
                lemma_digits_value_grows(d, i - start + 1);
            }
            return None;
        }
        acc = next as u64;
        i = i + 1;
    }
    assert(d.take(i - start) =~= d);
    Some(acc)
}

/// Parses `s` as `str::parse` does for an integer type with the values
/// `min..=max`; `signed` says whether a leading `-` is accepted.
fn parse_integer_text(s: &str, signed: bool, min: i64, max: i64) -> (r: Option<i64>)
    requires
        min <= 0 <= max,
        signed ==> min < 0,
        !signed ==> min == 0,
    ensures
        match r {
            Some(v) => parse_integer(s@, signed, min as int, max as int) == Some(v as int),
            None => parse_integer(s@, signed, min as int, max as int) is None,
        },
{
    let cs = chars_of(s);
    if cs.len() == 0 {
        return None;
    }
    let first = cs[0];
    if first == '+' || (signed && first == '-') {
        let negative = first == '-';
        assert(cs@.subrange(1, cs.len() as int) =~= s@.drop_first());
        if cs.len() == 1 {
            return None;
        }
        let bound: u64 = if negative {
            ((-(min + 1)) as u64) + 1
        } else {
            max as u64
        };
        match digits_up_to(&cs, 1, bound) {
            Some(v) => {
                if negative {
                    let value: i64 = if v == 0 {
                        0
                    } else {
                        -(((v - 1) as i64)) - 1
                    };
                    Some(value)
                } else {
                    Some(v as i64)
                }
            },
            None => None,
        }
    } else {
        assert(cs@.subrange(0, cs.len() as int) =~= s@);
        match digits_up_to(&cs, 0, max as u64) {
            Some(v) => Some(v as i64),
            None => None,
        }
    }
}

/// Parses `s` as `s.parse::<i32>()` does; `None` where that fails.
pub fn parse_i32(s: &str) -> (r: Option<i32>)
    ensures
        match r {
            Some(v) => parse_integer(s@, true, i32::MIN as int, i32::MAX as int) == Some(v as int),
            None => parse_integer(s@, true, i32::MIN as int, i32::MAX as int) is None,
        },
{
    match parse_integer_text(s, true, i32::MIN as i64, i32::MAX as i64) {
        Some(v) => Some(v as i32),
        None => None,
    }
}

/// Parses `s` as `s.parse::<i64>()` does; `None` where that fails.
pub fn parse_i64(s: &str) -> (r: Option<i64>)
    ensures
        match r {
            Some(v) => parse_integer(s@, true, i64::MIN as int, i64::MAX as int) == Some(v as int),
            None => parse_integer(s@, true, i64::MIN as int, i64::MAX as int) is None,
        },
{
    parse_integer_text(s, true, i64::MIN, i64::MAX)
}

/// Parses `s` as `s.parse::<u16>()` does; `None` where that fails.
pub fn parse_u16(s: &str) -> (r: Option<u16>)
    ensures
        match r {
            Some(v) => parse_integer(s@, false, 0, u16::MAX as int) == Some(v as int),
            None => parse_integer(s@, false, 0, u16::MAX as int) is None,
        },
{
    match parse_integer_text(s, false, 0, u16::MAX as i64) {
        Some(v) => Some(v as u16),
        None => None,
    }
}


/// Whether two string slices hold the same characters.
pub fn str_eq(a: &str, b: &str) -> (r: bool)
    ensures
        r == (a@ == b@),
{
    let x = chars_of(a);
    let y = chars_of(b);
    if x.len() != y.len() {
        return false;
    }
    let mut i: usize = 0;
    while i < x.len()
        invariant
            x@ == a@,
            y@ == b@,
            x.len() == y.len(),
            i <= x.len(),
            forall|j: int| 0 <= j < i ==> x@[j] == y@[j],
        decreases x.len() - i,
    {
        if x[i] != y[i] {
            return false;
        }
        i = i + 1;
    }
    assert(x@ =~= y@);
    true
}

/// Whether `needle` occurs in `hay` starting at position `i`.
pub open spec fn occurs_at(hay: Seq<char>, needle: Seq<char>, i: int) -> bool {
    0 <= i && i + needle.len() <= hay.len() && hay.subrange(i, i + needle.len()) == needle
}

/// Whether `needle` occurs anywhere in `hay`, as `str::contains` tests it
/// (an empty needle occurs in every text).
pub open spec fn seq_contains(hay: Seq<char>, needle: Seq<char>) -> bool {
    exists|i: int| occurs_at(hay, needle, i)
}

fn matches_at(hay: &Vec<char>, needle: &Vec<char>, i: usize) -> (r: bool)
    requires
        i + needle.len() <= hay.len(),
    ensures
        r == occurs_at(hay@, needle@, i as int),
{
    let mut j: usize = 0;
    while j < needle.len()
        invariant
            i + needle.len() <= hay.len(),
            j <= needle.len(),
            forall|k: int| 0 <= k < j ==> hay@[i + k] == needle@[k],
        decreases needle.len() - j,
    {
        if hay[i + j] != needle[j] {
            assert(hay@.subrange(i as int, i + needle.len())[j as int] != needle@[j as int]);
            return false;
        }
        j = j + 1;
    }
    assert(hay@.subrange(i as int, i + needle.len()) =~= needle@);
    true
}

/// Whether `needle` occurs in the characters `hay`.
pub fn chars_contain(hay: &Vec<char>, needle: &Vec<char>) -> (r: bool)
    ensures
        r == seq_contains(hay@, needle@),
{
    if needle.len() > hay.len() {
        assert forall|i: int| !occurs_at(hay@, needle@, i) by {}
        return false;
    }
    let last: usize = hay.len() - needle.len();
    let mut i: usize = 0;
    loop
        invariant
            needle.len() <= hay.len(),
            last == hay.len() - needle.len(),
            i <= last,
            forall|k: int| 0 <= k < i ==> !occurs_at(hay@, needle@, k),
        ensures
            forall|k: int| 0 <= k <= last ==> !occurs_at(hay@, needle@, k),
        decreases last - i,
    {
        if matches_at(hay, needle, i) {
            return true;
        }
        if i == last {
            break;
        }
        i = i + 1;
    }
    assert forall|k: int| !occurs_at(hay@, needle@, k) by {
        if 0 <= k <= last {
        }
    }
    false
}

/// Whether `needle` occurs in `hay`, as `hay.contains(needle)` tests it.
pub fn str_contains(hay: &str, needle: &str) -> (r: bool)
    ensures
        r == seq_contains(hay@, needle@),
{
    let h = chars_of(hay);
    let n = chars_of(needle);
    chars_contain(&h, &n)
}

/// Whether `c` has the Unicode `White_Space` property (`PropList.txt`):
/// tab to carriage return, space, next line, no-break space, ogham space
/// mark, the spaces from en quad to hair space, the line and paragraph
/// separators, narrow no-break space, medium mathematical space and
/// ideographic space.
pub open spec fn unicode_white_space(c: char) -> bool {
    let v = c as u32;
    (0x9 <= v <= 0xd) || v == 0x20 || v == 0x85 || v == 0xa0 || v == 0x1680 || (0x2000 <= v
        <= 0x200a) || v == 0x2028 || v == 0x2029 || v == 0x202f || v == 0x205f || v == 0x3000
}

/// Whether `c` is white space, as `char::is_whitespace` answers: whether
/// it has the `White_Space` property.
fn is_whitespace(c: char) -> (r: bool)
    ensures
        r == unicode_white_space(c),
{
    let v = c as u32;
    (0x9 <= v && v <= 0xd) || v == 0x20 || v == 0x85 || v == 0xa0 || v == 0x1680 || (0x2000 <= v
        && v <= 0x200a) || v == 0x2028 || v == 0x2029 || v == 0x202f || v == 0x205f || v == 0x3000
}

/// `s` without its leading white space.
pub open spec fn trim_start_spec(s: Seq<char>) -> Seq<char>
    decreases s.len(),
{
    if s.len() > 0 && unicode_white_space(s[0]) {
        trim_start_spec(s.drop_first())
    } else {
        s
    }
}

/// `s` without its trailing white space.
pub open spec fn trim_end_spec(s: Seq<char>) -> Seq<char>
    decreases s.len(),
{
    if s.len() > 0 && unicode_white_space(s.last()) {
        trim_end_spec(s.drop_last())
    } else {
        s
    }
}

/// `s` without leading and trailing white space, as `str::trim` gives it.
pub open spec fn trim_spec(s: Seq<char>) -> Seq<char> {
    trim_end_spec(trim_start_spec(s))
}

/// `s.trim()`: the text without leading and trailing white space.
pub fn trim(s: &str) -> (r: String)
    ensures
        r@ == trim_spec(s@),
{
    let cs = chars_of(s);
    let mut lo: usize = 0;
    assert(cs@.subrange(0, cs.len() as int) =~= cs@);
    while lo < cs.len() && is_whitespace(cs[lo])
        invariant
            lo <= cs.len(),
            cs@ == s@,
            trim_start_spec(s@) == trim_start_spec(cs@.subrange(lo as int, cs.len() as int)),
        decreases cs.len() - lo,
    {
        assert(cs@.subrange(lo as int, cs.len() as int).drop_first() =~= cs@.subrange(
            lo + 1,
            cs.len() as int,
        ));
        lo = lo + 1;
    }
    let ghost mid = cs@.subrange(lo as int, cs.len() as int);
    assert(trim_start_spec(s@) == mid);
    let mut hi: usize = cs.len();
    while hi > lo && is_whitespace(cs[hi - 1])
        invariant
            lo <= hi <= cs.len(),
            cs@ == s@,
            mid == cs@.subrange(lo as int, cs.len() as int),
            trim_end_spec(mid) == trim_end_spec(cs@.subrange(lo as int, hi as int)),
        decreases hi - lo,
    {
        assert(cs@.subrange(lo as int, hi as int).drop_last() =~= cs@.subrange(
            lo as int,
            hi - 1,
        ));
        hi = hi - 1;
    }
    let mut out: Vec<char> = Vec::new();
    let mut k: usize = lo;
    while k < hi
        invariant
            lo <= k <= hi <= cs.len(),
            out@ == cs@.subrange(lo as int, k as int),
        decreases hi - k,
    {
        out.push(cs[k]);
        assert(cs@.subrange(lo as int, k as int).push(cs@[k as int]) =~= cs@.subrange(
            lo as int,
            k + 1,
        ));
        k = k + 1;
    }
    string_from_chars(out.as_slice())
}


proof fn lemma_nat_digits(n: nat)
    ensures
        nat_digits(n).len() > 0,
        all_ascii_digits(nat_digits(n)),
        digits_value(nat_digits(n)) == n,
        !unicode_white_space(nat_digits(n)[0]),
        !unicode_white_space(nat_digits(n).last()),
        nat_digits(n)[0] != '+' && nat_digits(n)[0] != '-',
    decreases n,
{
    let d = (n % 10) as int;
    assert((digit_char(d) as int) == 48 + d && digit_char(d) as u32 == 48 + d);
    if n >= 10 {
        lemma_nat_digits(n / 10);
        let p = nat_digits(n / 10);
        let q = p.push(digit_char(d));
        assert(q.drop_last() =~= p);
        assert(q[0] == p[0]);
        assert(q.last() == digit_char(d));
        assert(nat_digits(n) == q);
        assert(digits_value(q) == digits_value(p) * 10 + (q.last() as int - 48));
        assert((n / 10) * 10 + d == n);
        assert forall|i: int| 0 <= i < q.len() implies is_ascii_digit(#[trigger] q[i]) by {
            if i < p.len() {
                assert(q[i] == p[i]);
            }
        }
    } else {
        assert((digit_char(n as int) as int) == 48 + n);
        let q = seq![digit_char(n as int)];
        assert(q.drop_last() =~= Seq::<char>::empty());
        assert(nat_digits(n) == q);
        assert(digits_value(q) == digits_value(q.drop_last()) * 10 + (q.last() as int - 48));
    }
}

/// Reading back a printed integer: the decimal text of a number in
/// `min..=max` parses (as `str::parse` does, signed) to that number, and
/// has no white space to trim.
pub proof fn decimal_parses_back(n: int, min: int, max: int)
    requires
        min <= n <= max,
    ensures
        trim_spec(int_decimal(n)) == int_decimal(n),
        parse_integer(int_decimal(n), true, min, max) == Some(n),
{
    let t = int_decimal(n);
    if n < 0 {
        let m = (-n) as nat;
        lemma_nat_digits(m);
        assert(t.drop_first() =~= nat_digits(m));
        assert(('-' as u32) == 45);
        assert(t.last() == nat_digits(m).last());
    } else {
        lemma_nat_digits(n as nat);
    }
    assert(trim_start_spec(t) == t);
    assert(trim_end_spec(t) == t);
}

} // verus!
