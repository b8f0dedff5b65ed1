//! Small string utilities shared by the parser and the reporting code.

use vstd::prelude::*;

verus! {

/// Appends one character to `s` (std's `String::push`).
#[verifier::external_body]
pub(crate) fn push_char(s: &mut String, c: char)
    ensures
        final(s)@ == old(s)@.push(c),
{
    s.push(c);
}

/// Appends the characters of `t` to `s` (std's `String::push_str`).
#[verifier::external_body]
pub(crate) fn push_str(s: &mut String, t: &str)
    ensures
        final(s)@ == old(s)@ + t@,
{
    s.push_str(t);
}

/// A fresh `String` holding the characters of `t` (std's `str::to_string`).
#[verifier::external_body]
pub(crate) fn to_owned_string(t: &str) -> (r: String)
    ensures
        r@ == t@,
{
    t.to_string()
}

/// The characters of `t`, in order (std's `str::chars`, collected).
#[verifier::external_body]
pub(crate) fn chars_of(t: &str) -> (r: Vec<char>)
    ensures
        r@ == t@,
{
    t.chars().collect()
}

/// Decodes UTF-8 bytes (std's `String::from_utf8`): `Some` exactly when the
/// bytes are valid UTF-8, holding the decoded characters.
#[verifier::external_body]
pub(crate) fn string_from_utf8(bytes: Vec<u8>) -> (r: Option<String>)
    ensures
        r is Some <==> vstd::utf8::valid_utf8(bytes@),
        r matches Some(s) ==> s@ == vstd::utf8::decode_utf8(bytes@),
{
    String::from_utf8(bytes).ok()
}

/// `s` followed by a line break.
pub open spec fn line(s: Seq<char>) -> Seq<char> {
    s.push('\n')
}

/// The decimal digits of `n`, most significant first, without leading zeros.
pub open spec fn decimal(n: nat) -> Seq<char>
    decreases n,
{
    if n < 10 {
        seq![digit_char(n)]
    } else {
        decimal(n / 10).push(digit_char(n % 10))
    }
}

pub open spec fn digit_char(d: nat) -> char {
    if d == 0 { '0' }
    else if d == 1 { '1' }
    else if d == 2 { '2' }
    else if d == 3 { '3' }
    else if d == 4 { '4' }
    else if d == 5 { '5' }
    else if d == 6 { '6' }
    else if d == 7 { '7' }
    else if d == 8 { '8' }
    else { '9' }
}

fn digit(d: u64) -> (c: char)
    requires
        d < 10,
    ensures
        c == digit_char(d as nat),
{
    if d == 0 { '0' }
    else if d == 1 { '1' }
    else if d == 2 { '2' }
    else if d == 3 { '3' }
    else if d == 4 { '4' }
    else if d == 5 { '5' }
    else if d == 6 { '6' }
    else if d == 7 { '7' }
    else if d == 8 { '8' }
    else { '9' }
}

/// Appends the decimal form of `n` to `s`.
pub fn push_decimal(s: &mut String, n: u64)
    ensures
        final(s)@ == old(s)@ + decimal(n as nat),
    decreases n,
{
    if n < 10 {
        push_char(s, digit(n));
        assert(decimal(n as nat) =~= seq![digit_char(n as nat)]);
    } else {
        push_decimal(s, n / 10);
        push_char(s, digit(n % 10));
        assert(decimal(n as nat) =~= decimal((n / 10) as nat).push(digit_char((n % 10) as nat)));
    }
}

/// Whether `c` occurs in `s`.
pub open spec fn has_char(s: Seq<char>, c: char) -> bool {
    exists|i: int| 0 <= i < s.len() && s[i] == c
}

/// Exec form of [`has_char`].
pub fn contains_char(s: &str, c: char) -> (r: bool)
    ensures
        r == has_char(s@, c),
{
    let cs = chars_of(s);
    let mut i: usize = 0;
    while i < cs.len()
        invariant
            cs@ == s@,
            i <= cs.len(),
            forall|j: int| 0 <= j < i ==> cs@[j] != c,
        decreases cs.len() - i,
    {
        if cs[i] == c {
            return true;
        }
        i = i + 1;
    }
    false
}

/// Character-wise equality of two strings.
pub fn str_eq(s: &str, t: &str) -> (r: bool)
    ensures
        r == (s@ == t@),
{
    let a = chars_of(s);
    let b = chars_of(t);
    if a.len() != b.len() {
        return false;
    }
    let mut i: usize = 0;
    while i < a.len()
        invariant
            a@ == s@,
            b@ == t@,
            a.len() == b.len(),
            i <= a.len(),
            forall|j: int| 0 <= j < i ==> a@[j] == b@[j],
        decreases a.len() - i,
    {
        if a[i] != b[i] {
            return false;
        }
        i = i + 1;
    }
    assert(a@ =~= b@);
    true
}

/// Whether `s` holds `t` as a contiguous part.
pub open spec fn has_substring(s: Seq<char>, t: Seq<char>) -> bool {
    exists|i: int| 0 <= i && i + t.len() <= s.len() && #[trigger] s.subrange(i, i + t.len()) == t
}

/// Exec form of [`has_substring`].
pub fn contains_str(s: &str, t: &str) -> (r: bool)
    ensures
        r == has_substring(s@, t@),
{
    let a = chars_of(s);
    let b = chars_of(t);
    if b.len() > a.len() {
        return false;
    }
    let mut i: usize = 0;
    while i <= a.len() - b.len()
        invariant
            a@ == s@,
            b@ == t@,
            b.len() <= a.len(),
            i <= a.len() - b.len() + 1,
            forall|k: int| 0 <= k < i ==> #[trigger] a@.subrange(k, k + b@.len()) != b@,
        decreases a.len() - i,
    {
        let mut j: usize = 0;
        let mut ok = true;
        while j < b.len()
            invariant
                a@ == s@,
                b@ == t@,
                i + b.len() <= a.len(),
                j <= b.len(),
                ok == (forall|m: int| 0 <= m < j ==> a@[i + m] == b@[m]),
            decreases b.len() - j,
        {
            if a[i + j] != b[j] {
                ok = false;
            }
            j = j + 1;
        }
        if ok {
            assert(a@.subrange(i as int, i + b@.len()) =~= b@);
            return true;
        }
        assert(a@.subrange(i as int, i + b@.len()) != b@) by {
            let m = choose|m: int| 0 <= m < j && a@[i + m] != b@[m];
            assert(a@.subrange(i as int, i + b@.len())[m] == a@[i + m]);
        }
        i = i + 1;
    }
    proof {
        assert forall|k: int| 0 <= k && k + t@.len() <= s@.len() implies #[trigger] s@.subrange(k, k + t@.len()) != t@ by {
            assert(k < i);
        }
    }
    false
}


/// Unicode `White_Space`, the property std's `char::is_whitespace` tests.
pub open spec fn is_unicode_whitespace(c: char) -> bool {
    ('\u{9}' <= c && c <= '\u{d}') || c == ' ' || c == '\u{85}' || c == '\u{a0}' || c == '\u{1680}'
        || ('\u{2000}' <= c && c <= '\u{200a}') || c == '\u{2028}' || c == '\u{2029}' || c == '\u{202f}'
        || c == '\u{205f}' || c == '\u{3000}'
}

/// Exec form of [`is_unicode_whitespace`].
pub fn is_whitespace(c: char) -> (r: bool)
    ensures
        r == is_unicode_whitespace(c),
{
    ('\u{9}' <= c && c <= '\u{d}') || c == ' ' || c == '\u{85}' || c == '\u{a0}' || c == '\u{1680}'
        || ('\u{2000}' <= c && c <= '\u{200a}') || c == '\u{2028}' || c == '\u{2029}' || c == '\u{202f}'
        || c == '\u{205f}' || c == '\u{3000}'
}

/// The number of bytes of a character's UTF-8 encoding.
pub open spec fn utf8_width(c: char) -> nat {
    if c >= '\u{10000}' {
        4
    } else if c >= '\u{800}' {
        3
    } else if c >= '\u{80}' {
        2
    } else {
        1
    }
}

/// The number of bytes of a text's UTF-8 encoding (std's `str::len`).
pub open spec fn utf8_length(s: Seq<char>) -> nat
    decreases s.len(),
{
    if s.len() == 0 {
        0
    } else {
        utf8_length(s.drop_last()) + utf8_width(s.last())
    }
}

/// Exec form of [`utf8_width`].
pub fn char_utf8_width(c: char) -> (r: usize)
    ensures
        r == utf8_width(c),
        1 <= r <= 4,
{
    if c >= '\u{10000}' {
        4
    } else if c >= '\u{800}' {
        3
    } else if c >= '\u{80}' {
        2
    } else {
        1
    }
}

/// An ASCII letter (std's `char::is_ascii_alphabetic`).
pub open spec fn is_ascii_letter(c: char) -> bool {
    ('a' <= c && c <= 'z') || ('A' <= c && c <= 'Z')
}


/// [`utf8_width`] is the length of the character's UTF-8 encoding.
pub proof fn lemma_utf8_width_encoding(c: char)
    ensures
        utf8_width(c) == vstd::utf8::encode_scalar(c as u32).len(),
{
    vstd::utf8::char_is_scalar(c);
}

/// [`utf8_length`] is the length of the text's UTF-8 encoding, which is
/// what std's `str::len` returns.
pub proof fn lemma_utf8_length_encoding(s: Seq<char>)
    ensures
        utf8_length(s) == vstd::utf8::encode_utf8(s).len(),
    decreases s.len(),
{
    if s.len() > 0 {
        lemma_utf8_length_encoding(s.drop_first());
        lemma_utf8_width_encoding(s[0]);
        lemma_utf8_length_front(s);
    }
}

proof fn lemma_utf8_length_front(s: Seq<char>)
    requires
        s.len() > 0,
    ensures
        utf8_length(s) == utf8_width(s[0]) + utf8_length(s.drop_first()),
    decreases s.len(),
{
    if s.len() > 1 {
        lemma_utf8_length_front(s.drop_last());
        assert(s.drop_last().drop_first() =~= s.drop_first().drop_last());
        assert(s.drop_first().last() == s.last());
        assert(s.drop_last()[0] == s[0]);
        assert(utf8_length(s.drop_first()) == utf8_length(s.drop_first().drop_last()) + utf8_width(s.drop_first().last()));
    } else {
        assert(s.drop_first().len() == 0);
        assert(s.drop_last().len() == 0);
        assert(s.last() == s[0]);
        assert(utf8_length(s.drop_last()) == 0);
        assert(utf8_length(s.drop_first()) == 0);
    }
}

} // verus!
