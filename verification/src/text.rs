//! Text handling shared by the commands: decimal numbers, argument parsing
//! and the substring tests the commands make.

use vstd::prelude::*;
use vstd::string::*;

verus! {

/// The character of the decimal digit `d` (for `d < 10`).
pub open spec fn digit_char(d: nat) -> char {
    (d + 48) as char
}

/// Whether `c` is one of `'0'..='9'`.
pub open spec fn is_digit(c: char) -> bool {
    '0' <= c && c <= '9'
}

/// The numeric value of a digit character.
pub open spec fn digit_value(c: char) -> nat {
    (c as int - 48) as nat
}

/// The decimal representation of `n`, without sign or leading zeros.
pub open spec fn decimal(n: nat) -> Seq<char>
    decreases n,
{
    if n < 10 {
        seq![digit_char(n)]
    } else {
        decimal(n / 10).push(digit_char(n % 10))
    }
}

/// Appends one character to a string (`String::push`).
#[verifier::external_body]
pub(crate) fn push_char(s: &mut String, c: char)
    ensures
        final(s)@ == old(s)@.push(c),
{
    s.push(c);
}

fn digit(d: u128) -> (c: char)
    requires
        d < 10,
    ensures
        c == digit_char(d as nat),
{
    let b: u8 = 48u8 + (d as u8);
    b as char
}

/// Appends the decimal representation of `n` to `s`.
pub fn push_decimal(s: &mut String, n: u128)
    ensures
        final(s)@ == old(s)@ + decimal(n as nat),
    decreases n,
{
    if n >= 10 {
        push_decimal(s, n / 10);
    }
    push_char(s, digit(n % 10));
}

/// The decimal representation of `n`, as `n.to_string()` writes it.
pub fn decimal_string(n: u128) -> (s: String)
    ensures
        s@ == decimal(n as nat),
{
    let mut s = String::new();
    push_decimal(&mut s, n);
    assert(s@ =~= decimal(n as nat));
    s
}


/// The value of a string of digits, read most significant first.
pub open spec fn digits_value(s: Seq<char>) -> nat
    decreases s.len(),
{
    if s.len() == 0 {
        0
    } else {
        digits_value(s.drop_last()) * 10 + digit_value(s.last())
    }
}

/// Whether every character of `s` is a decimal digit.
pub open spec fn all_digits(s: Seq<char>) -> bool {
    forall|i: int| 0 <= i < s.len() ==> is_digit(#[trigger] s[i])
}

/// The digits of an unsigned number in text: `s` without one leading `+`.
pub open spec fn unsigned_digits(s: Seq<char>) -> Seq<char> {
    if s.len() > 0 && s[0] == '+' {
        s.drop_first()
    } else {
        s
    }
}

/// What `u32::from_str` makes of `s`: an optional `+` followed by at least one
/// decimal digit, with a value that fits in a `u32`.
pub open spec fn u32_text(s: Seq<char>) -> Option<u32> {
    let d = unsigned_digits(s);
    if d.len() > 0 && all_digits(d) && digits_value(d) <= u32::MAX {
        Some(digits_value(d) as u32)
    } else {
        None
    }
}

/// Whether `needle` occurs in `hay` starting at position `i`.
pub open spec fn occurs_at(hay: Seq<char>, needle: Seq<char>, i: int) -> bool {
    0 <= i && i + needle.len() <= hay.len() && hay.subrange(i, i + needle.len()) == needle
}

/// Whether `needle` occurs anywhere in `hay`.
pub open spec fn occurs_in(hay: Seq<char>, needle: Seq<char>) -> bool {
    exists|i: int| occurs_at(hay, needle, i)
}

proof fn lemma_digits_value_prefix(s: Seq<char>, k: int)
    requires
        0 <= k <= s.len(),
    ensures
        digits_value(s.subrange(0, k)) <= digits_value(s),
    decreases s.len() - k,
{
    if k < s.len() {
        lemma_digits_value_prefix(s, k + 1);
        assert(s.subrange(0, k + 1).drop_last() =~= s.subrange(0, k));
    } else {
        assert(s.subrange(0, k) =~= s);
    }
}

proof fn lemma_digit_roundtrip(d: nat)
    requires
        d < 10,
    ensures
        is_digit(digit_char(d)),
        digit_value(digit_char(d)) == d,
{
}

/// The decimal representation is a non-empty string of digits whose value
/// is the number itself.
pub proof fn lemma_decimal_digits(n: nat)
    ensures
        decimal(n).len() > 0,
        all_digits(decimal(n)),
        digits_value(decimal(n)) == n,
    decreases n,
{
    lemma_digit_roundtrip(n % 10);
    if n >= 10 {
        lemma_decimal_digits(n / 10);
        let d = decimal(n);
        assert(d.drop_last() =~= decimal(n / 10));
        assert(d.last() == digit_char(n % 10));
        assert(digit_value(d.last()) == n % 10);
        assert(digits_value(d) == digits_value(decimal(n / 10)) * 10 + n % 10);
        assert((n / 10) * 10 + n % 10 == n);
        assert forall|i: int| 0 <= i < d.len() implies is_digit(#[trigger] d[i]) by {
            if i < d.len() - 1 {
                assert(d[i] == decimal(n / 10)[i]);
            }
        }
    } else {
        let d = decimal(n);
        assert(d.len() == 1);
        assert(d.last() == digit_char(n));
        assert(d.drop_last() =~= Seq::<char>::empty());
        assert(digits_value(d.drop_last()) == 0);
    }
}

/// Reading back a decimal representation gives the number: for every `u32`
/// value `n`, parsing the text that `decimal_string` writes for `n` gives `n`.
pub proof fn law_parse_reads_decimal(n: u32)
    ensures
        u32_text(decimal(n as nat)) == Some(n),
{
    lemma_decimal_digits(n as nat);
    lemma_digit_roundtrip((n % 10) as nat);
    if n >= 10 {
        lemma_decimal_digits((n / 10) as nat);
    }
    let d = decimal(n as nat);
    assert(is_digit(d[0]));
    assert(unsigned_digits(d) == d);
}

/// Parses `s` as `u32::from_str` does: an optional `+` sign followed by
/// decimal digits, `None` where there are no digits, another character, or a
/// value above `u32::MAX`.
pub fn parse_u32(s: &str) -> (r: Option<u32>)
    ensures
        r == u32_text(s@),
{
    let n = s.unicode_len();
    if n == 0 {
        return None;
    }
    let mut i: usize = 0;
    if s.get_char(0) == '+' {
        i = 1;
    }
    if i == n {
        return None;
    }
    let start = i;
    let ghost d = unsigned_digits(s@);
    assert(d =~= s@.subrange(start as int, n as int));
    let mut v: u64 = 0;
    assert(d.subrange(0, 0) =~= Seq::<char>::empty());
    while i < n
        invariant
            start <= i <= n,
            n == s@.len(),
            d == unsigned_digits(s@),
            d =~= s@.subrange(start as int, n as int),
            d.len() > 0,
            all_digits(d.subrange(0, i - start)),
            v == digits_value(d.subrange(0, i - start)),
            v <= u32::MAX,
        decreases n - i,
    {
        let c = s.get_char(i);
        let k: usize = i - start;
        assert(d[k as int] == c);
        if !('0' <= c && c <= '9') {
            assert(!is_digit(d[k as int]));
            return None;
        }
        let dv: u64 = (c as u64) - 48;
        let ghost next = d.subrange(0, k + 1);
        assert(next.drop_last() =~= d.subrange(0, k as int));
        assert(next.last() == c);
        v = v * 10 + dv;
        assert(v == digits_value(next));
        if v > 4294967295u64 {
            proof {
                lemma_digits_value_prefix(d, k + 1);
            }
            return None;
        }
        i = i + 1;
        assert(all_digits(d.subrange(0, i - start))) by {
            assert forall|j: int| 0 <= j < next.len() implies is_digit(#[trigger] next[j]) by {
                if j < k {
                    assert(next[j] == d.subrange(0, k as int)[j]);
                }
            }
        }
    }
    assert(d.subrange(0, n - start) =~= d);
    Some(v as u32)
}

/// Whether `needle` occurs in `hay` at position `i`.
fn matches_at(hay: &str, needle: &str, i: usize) -> (b: bool)
    requires
        i + needle@.len() <= hay@.len(),
    ensures
        b == occurs_at(hay@, needle@, i as int),
{
    let m = needle.unicode_len();
    let hay_len = hay.unicode_len();
    let mut j: usize = 0;
    while j < m
        invariant
            m == needle@.len(),
            hay_len == hay@.len(),
            i + m <= hay@.len(),
            j <= m,
            forall|k: int| 0 <= k < j ==> hay@[i + k] == needle@[k],
        decreases m - j,
    {
        if hay.get_char(i + j) != needle.get_char(j) {
            assert(hay@.subrange(i as int, i + m)[j as int] != needle@[j as int]);
            return false;
        }
        j = j + 1;
    }
    assert(hay@.subrange(i as int, i + m) =~= needle@);
    true
}

/// Whether `s` begins with `prefix` (`str::starts_with`).
pub fn starts_with(s: &str, prefix: &str) -> (b: bool)
    ensures
        b == prefix@.is_prefix_of(s@),
{
    if prefix.unicode_len() > s.unicode_len() {
        return false;
    }
    let b = matches_at(s, prefix, 0);
    assert(b == (s@.subrange(0, prefix@.len() as int) =~= prefix@));
    b
}

/// Whether `needle` occurs in `s` (`str::contains`).
pub fn contains(s: &str, needle: &str) -> (b: bool)
    ensures
        b == occurs_in(s@, needle@),
{
    let n = s.unicode_len();
    let m = needle.unicode_len();
    if m > n {
        return false;
    }
    let last: usize = n - m;
    let mut i: usize = 0;
    loop
        invariant
            n == s@.len(),
            m == needle@.len(),
            last == n - m,
            i <= last,
            forall|k: int| 0 <= k < i ==> !occurs_at(s@, needle@, k),
        decreases last - i,
    {
        if matches_at(s, needle, i) {
            return true;
        }
        if i == last {
            proof {
                true_or_absent(s@, needle@);
            }
            return false;
        }
        i = i + 1;
    }
}

proof fn true_or_absent(hay: Seq<char>, needle: Seq<char>)
    requires
        needle.len() <= hay.len(),
        forall|k: int| 0 <= k < hay.len() - needle.len() + 1 ==> !occurs_at(hay, needle, k),
    ensures
        !occurs_in(hay, needle),
{
}

/// Whether two strings hold the same text.
pub fn same_text(a: &str, b: &str) -> (r: bool)
    ensures
        r == (a@ == b@),
{
    if a.unicode_len() != b.unicode_len() {
        return false;
    }
    let r = matches_at(a, b, 0);
    assert(r == (a@.subrange(0, b@.len() as int) =~= b@));
    assert(a@.subrange(0, a@.len() as int) =~= a@);
    r
}

} // verus!
