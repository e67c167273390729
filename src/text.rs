//! Character-level helpers on strings, stated over their `Seq<char>` views.

use vstd::prelude::*;

verus! {

/// Unicode `White_Space`, as `char::is_whitespace` classifies it.
pub open spec fn is_ws(c: char) -> bool {
    c == '\t' || c == '\n' || c == '\x0B' || c == '\x0C' || c == '\r' || c == ' '
        || c == '\u{85}' || c == '\u{A0}' || c == '\u{1680}'
        || ('\u{2000}' <= c && c <= '\u{200A}')
        || c == '\u{2028}' || c == '\u{2029}' || c == '\u{202F}' || c == '\u{205F}'
        || c == '\u{3000}'
}

/// The first index at or after `i` that does not hold whitespace.
pub open spec fn skip_ws(s: Seq<char>, i: int) -> int
    decreases s.len() - i,
{
    if i < 0 || i >= s.len() || !is_ws(s[i]) {
        i
    } else {
        skip_ws(s, i + 1)
    }
}

/// The first index at or after `i` that holds whitespace.
pub open spec fn skip_word(s: Seq<char>, i: int) -> int
    decreases s.len() - i,
{
    if i < 0 || i >= s.len() || is_ws(s[i]) {
        i
    } else {
        skip_word(s, i + 1)
    }
}

/// The first whitespace-separated word of `s`, empty when there is none.
pub open spec fn first_word(s: Seq<char>) -> Seq<char> {
    let a = skip_ws(s, 0);
    s.subrange(a, skip_word(s, a))
}

/// The second whitespace-separated word of `s`, empty when there is none.
pub open spec fn second_word(s: Seq<char>) -> Seq<char> {
    let a = skip_ws(s, 0);
    let b = skip_word(s, a);
    let c = skip_ws(s, b);
    s.subrange(c, skip_word(s, c))
}

pub fn is_whitespace(c: char) -> (r: bool)
    ensures
        r == is_ws(c),
{
    c == '\t' || c == '\n' || c == '\x0B' || c == '\x0C' || c == '\r' || c == ' '
        || c == '\u{85}' || c == '\u{A0}' || c == '\u{1680}'
        || ('\u{2000}' <= c && c <= '\u{200A}')
        || c == '\u{2028}' || c == '\u{2029}' || c == '\u{202F}' || c == '\u{205F}'
        || c == '\u{3000}'
}

fn skip_whitespace(s: &str, start: usize) -> (r: usize)
    requires
        start <= s@.len(),
    ensures
        r as int == skip_ws(s@, start as int),
        start <= r <= s@.len(),
{
    let len = s.unicode_len();
    let mut i = start;
    while i < len && is_whitespace(s.get_char(i))
        invariant
            len == s@.len(),
            start <= i <= len,
            skip_ws(s@, i as int) == skip_ws(s@, start as int),
        decreases len - i,
    {
        i = i + 1;
    }
    i
}

fn skip_non_whitespace(s: &str, start: usize) -> (r: usize)
    requires
        start <= s@.len(),
    ensures
        r as int == skip_word(s@, start as int),
        start <= r <= s@.len(),
{
    let len = s.unicode_len();
    let mut i = start;
    while i < len && !is_whitespace(s.get_char(i))
        invariant
            len == s@.len(),
            start <= i <= len,
            skip_word(s@, i as int) == skip_word(s@, start as int),
        decreases len - i,
    {
        i = i + 1;
    }
    i
}

/// The first whitespace-separated word, or `""`.
pub fn first_word_of(s: &str) -> (r: &str)
    ensures
        r@ == first_word(s@),
{
    let a = skip_whitespace(s, 0);
    let b = skip_non_whitespace(s, a);
    s.substring_char(a, b)
}

/// The second whitespace-separated word, or `""`.
pub fn second_word_of(s: &str) -> (r: &str)
    ensures
        r@ == second_word(s@),
{
    let a = skip_whitespace(s, 0);
    let b = skip_non_whitespace(s, a);
    let c = skip_whitespace(s, b);
    let d = skip_non_whitespace(s, c);
    s.substring_char(c, d)
}

/// Character-wise equality of two strings.
pub fn str_eq(a: &str, b: &str) -> (r: bool)
    ensures
        r == (a@ == b@),
{
    let n = a.unicode_len();
    if n != b.unicode_len() {
        return false;
    }
    let mut i: usize = 0;
    while i < n
        invariant
            n == a@.len(),
            n == b@.len(),
            0 <= i <= n,
            forall|k: int| 0 <= k < i ==> a@[k] == b@[k],
        decreases n - i,
    {
        if a.get_char(i) != b.get_char(i) {
            return false;
        }
        i = i + 1;
    }
    assert(a@ =~= b@);
    true
}

} // verus!
