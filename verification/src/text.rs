//! Character-level text helpers shared by the identifier, merge and codec
//! logic: whitespace trimming, character classification and lowercasing.
//!
//! Classification of a single character and lowercasing of a string follow
//! the Unicode tables of the standard library; those calls stand behind
//! trusted shims whose results are named by uninterpreted spec functions.

use vstd::prelude::*;
use vstd::string::*;

verus! {

/// Whether a character beyond the ASCII range has the Unicode whitespace
/// property; names that part of the result of `char::is_whitespace`.
pub uninterp spec fn unicode_space(c: char) -> bool;

/// Whether a character beyond the ASCII range is Unicode alphanumeric;
/// names that part of the result of `char::is_alphanumeric`.
pub uninterp spec fn unicode_alnum(c: char) -> bool;

/// What `char::is_whitespace` returns. Within ASCII the whitespace
/// characters are exactly space, tab, line feed, vertical tab, form feed
/// and carriage return; beyond ASCII the Unicode table decides.
pub open spec fn is_space_char(c: char) -> bool {
    if c <= '\u{7f}' {
        c == ' ' || c == '\t' || c == '\n' || c == '\u{b}' || c == '\u{c}' || c == '\r'
    } else {
        unicode_space(c)
    }
}

/// What `char::is_alphanumeric` returns. Within ASCII exactly the letters
/// and digits are alphanumeric; beyond ASCII the Unicode table decides.
pub open spec fn is_alnum_char(c: char) -> bool {
    if c <= '\u{7f}' {
        ('0' <= c && c <= '9') || ('a' <= c && c <= 'z') || ('A' <= c && c <= 'Z')
    } else {
        unicode_alnum(c)
    }
}

/// The lowercase form of a string; names the result of
/// `str::to_lowercase`, which depends on the characters alone.
pub uninterp spec fn lower_of(s: Seq<char>) -> Seq<char>;

/// Relies on `char::is_whitespace`: true exactly for characters with the
/// Unicode whitespace property, a property of the character alone.
#[verifier::external_body]
pub(crate) fn char_is_space(c: char) -> (r: bool)
    ensures
        r == is_space_char(c),
        c > '\u{7f}' ==> r == unicode_space(c),
{
    c.is_whitespace()
}

/// Relies on `char::is_alphanumeric`: true exactly for characters in the
/// Unicode alphabetic and numeric categories, a property of the character
/// alone.
#[verifier::external_body]
pub(crate) fn char_is_alnum(c: char) -> (r: bool)
    ensures
        r == is_alnum_char(c),
        c > '\u{7f}' ==> r == unicode_alnum(c),
{
    c.is_alphanumeric()
}

/// Relies on `str::to_lowercase`: returns the lowercase equivalent of the
/// string, determined by its characters alone.
#[verifier::external_body]
pub(crate) fn to_lower(s: &str) -> (r: String)
    ensures
        r@ == lower_of(s@),
{
    s.to_lowercase()
}

/// Relies on `char::to_string` (through `ToString`): the string holding
/// exactly the one character.
#[verifier::external_body]
pub(crate) fn char_to_string(c: char) -> (r: String)
    ensures
        r@ == seq![c],
{
    c.to_string()
}

/// The sequence with its leading run of characters satisfying `p` removed.
pub open spec fn strip_front(s: Seq<char>, p: spec_fn(char) -> bool) -> Seq<char>
    decreases s.len(),
{
    if s.len() > 0 && p(s[0]) {
        strip_front(s.drop_first(), p)
    } else {
        s
    }
}

/// The sequence with its trailing run of characters satisfying `p` removed.
pub open spec fn strip_back(s: Seq<char>, p: spec_fn(char) -> bool) -> Seq<char>
    decreases s.len(),
{
    if s.len() > 0 && p(s.last()) {
        strip_back(s.drop_last(), p)
    } else {
        s
    }
}

/// The sequence with leading and trailing runs of `p`-characters removed.
pub open spec fn strip_ends(s: Seq<char>, p: spec_fn(char) -> bool) -> Seq<char> {
    strip_back(strip_front(s, p), p)
}

/// What `str::trim` computes: the string without leading and trailing
/// Unicode whitespace.
pub open spec fn trim_spec(s: Seq<char>) -> Seq<char> {
    strip_ends(s, |c: char| is_space_char(c))
}

/// A string is trimmed when trimming leaves it unchanged.
pub open spec fn is_trimmed(s: Seq<char>) -> bool {
    trim_spec(s) == s
}

pub proof fn lemma_strip_front_subrange(s: Seq<char>, p: spec_fn(char) -> bool, i: int)
    requires
        0 <= i <= s.len(),
        forall|j: int| 0 <= j < i ==> p(s[j]),
        i == s.len() || !p(s[i]),
    ensures
        strip_front(s, p) =~= s.subrange(i, s.len() as int),
    decreases i,
{
    if i == 0 {
        if s.len() > 0 && p(s[0]) {
            assert(!p(s[0]));
        }
        assert(strip_front(s, p) =~= s.subrange(0, s.len() as int));
    } else {
        let t = s.drop_first();
        assert(forall|j: int| 0 <= j < i - 1 ==> p(t[j]));
        lemma_strip_front_subrange(t, p, i - 1);
        assert(strip_front(s, p) == strip_front(t, p));
        assert(t.subrange(i - 1, t.len() as int) =~= s.subrange(i, s.len() as int));
    }
}

pub proof fn lemma_strip_back_subrange(s: Seq<char>, p: spec_fn(char) -> bool, j: int)
    requires
        0 <= j <= s.len(),
        forall|k: int| j <= k < s.len() ==> p(s[k]),
        j == 0 || !p(s[j - 1]),
    ensures
        strip_back(s, p) =~= s.subrange(0, j),
    decreases s.len() - j,
{
    if j == s.len() {
        if s.len() > 0 && p(s.last()) {
            assert(!p(s[j - 1]));
        }
        assert(strip_back(s, p) =~= s.subrange(0, j));
    } else {
        let t = s.drop_last();
        assert(p(s.last()));
        assert(forall|k: int| j <= k < t.len() ==> t[k] == s[k] && p(t[k]));
        lemma_strip_back_subrange(t, p, j);
        assert(t.subrange(0, j) =~= s.subrange(0, j));
    }
}

/// The result of `strip_front` is empty or begins with a non-`p` character.
proof fn lemma_strip_front_clean(s: Seq<char>, p: spec_fn(char) -> bool)
    ensures
        strip_front(s, p).len() == 0 || !p(strip_front(s, p)[0]),
    decreases s.len(),
{
    if s.len() > 0 && p(s[0]) {
        lemma_strip_front_clean(s.drop_first(), p);
    }
}

/// The result of `strip_back` is empty or ends with a non-`p` character,
/// and keeps the first character of its input.
proof fn lemma_strip_back_clean(s: Seq<char>, p: spec_fn(char) -> bool)
    ensures
        strip_back(s, p).len() == 0 || !p(strip_back(s, p).last()),
        strip_back(s, p).len() > 0 ==> strip_back(s, p)[0] == s[0],
    decreases s.len(),
{
    if s.len() > 0 && p(s.last()) {
        lemma_strip_back_clean(s.drop_last(), p);
    }
}

/// Stripping both ends is idempotent.
pub proof fn lemma_strip_ends_idempotent(s: Seq<char>, p: spec_fn(char) -> bool)
    ensures
        strip_ends(strip_ends(s, p), p) == strip_ends(s, p),
{
    let f = strip_front(s, p);
    let t = strip_back(f, p);
    lemma_strip_front_clean(s, p);
    lemma_strip_back_clean(f, p);
    if t.len() == 0 {
        assert(strip_front(t, p) =~= t);
        assert(strip_ends(t, p) =~= t);
    } else {
        assert(t[0] == f[0]);
        assert(!p(t[0]));
        assert(strip_front(t, p) == t);
        assert(!p(t.last()));
        assert(strip_back(t, p) == t);
    }
}

/// Trimming is idempotent: trimming a trimmed string changes nothing.
pub proof fn lemma_trim_idempotent(s: Seq<char>)
    ensures
        is_trimmed(trim_spec(s)),
{
    lemma_strip_ends_idempotent(s, |c: char| is_space_char(c));
}

/// A string without any whitespace character is already trimmed.
pub proof fn lemma_trim_of_spaceless(s: Seq<char>)
    requires
        forall|i: int| 0 <= i < s.len() ==> !is_space_char(s[i]),
    ensures
        trim_spec(s) == s,
{
    let p = |c: char| is_space_char(c);
    if s.len() > 0 {
        assert(!p(s[0]));
        assert(!p(s.last()));
    }
    assert(strip_front(s, p) == s);
    assert(strip_back(s, p) == s);
}

/// Whether `needle` occurs as a contiguous run of characters in `hay`.
pub open spec fn contains_seq(hay: Seq<char>, needle: Seq<char>) -> bool {
    exists|i: int|
        0 <= i && i + needle.len() <= hay.len() && #[trigger] hay.subrange(
            i,
            i + needle.len() as int,
        ) == needle
}

fn match_at(hay: &str, needle: &str, at: usize, hay_len: usize) -> (b: bool)
    requires
        hay_len == hay@.len(),
        at + needle@.len() <= hay@.len(),
    ensures
        b == (hay@.subrange(at as int, at as int + needle@.len() as int) == needle@),
{
    let m = needle.unicode_len();
    let mut j: usize = 0;
    while j < m
        invariant
            0 <= j <= m,
            m == needle@.len(),
            at + m <= hay_len,
            hay_len == hay@.len(),
            forall|k: int| 0 <= k < j ==> hay@[at + k] == needle@[k],
        decreases m - j,
    {
        if hay.get_char(at + j) != needle.get_char(j) {
            proof {
                let w = hay@.subrange(at as int, at as int + m as int);
                assert(w[j as int] == hay@[at + j]);
                assert(w[j as int] != needle@[j as int]);
            }
            return false;
        }
        j = j + 1;
    }
    proof {
        assert(hay@.subrange(at as int, at as int + m as int) =~= needle@);
    }
    true
}

/// Whether one string occurs inside another, by characters.
pub fn contains_str(hay: &str, needle: &str) -> (b: bool)
    ensures
        b == contains_seq(hay@, needle@),
{
    let n = hay.unicode_len();
    let m = needle.unicode_len();
    if m > n {
        return false;
    }
    if m == 0 {
        proof {
            assert(hay@.subrange(0, 0 + needle@.len() as int) =~= needle@);
        }
        return true;
    }
    let mut i: usize = 0;
    while i <= n - m
        invariant
            0 <= i <= n - m + 1,
            1 <= m <= n,
            n == hay@.len(),
            m == needle@.len(),
            forall|x: int|
                0 <= x < i ==> #[trigger] hay@.subrange(x, x + needle@.len() as int) != needle@,
        decreases n - m + 1 - i,
    {
        if match_at(hay, needle, i, n) {
            return true;
        }
        i = i + 1;
    }
    proof {
        if contains_seq(hay@, needle@) {
            let x = choose|x: int|
                0 <= x && x + needle@.len() <= hay@.len() && #[trigger] hay@.subrange(
                    x,
                    x + needle@.len() as int,
                ) == needle@;
            assert(x < i);
        }
    }
    false
}

/// What `str::trim` does, as a verified function: removes leading and
/// trailing Unicode whitespace.
pub fn trim_str(s: &str) -> (r: String)
    ensures
        r@ == trim_spec(s@),
{
    let n = s.unicode_len();
    let mut start: usize = 0;
    while start < n && char_is_space(s.get_char(start))
        invariant
            0 <= start <= n,
            n == s@.len(),
            forall|j: int| 0 <= j < start ==> is_space_char(s@[j]),
        decreases n - start,
    {
        start = start + 1;
    }
    let mut end: usize = n;
    while end > start && char_is_space(s.get_char(end - 1))
        invariant
            start <= end <= n,
            n == s@.len(),
            forall|k: int| end <= k < n ==> is_space_char(s@[k]),
        decreases end,
    {
        end = end - 1;
    }
    proof {
        let p = |c: char| is_space_char(c);
        assert(forall|j: int| 0 <= j < start ==> p(s@[j]));
        assert(start == s@.len() || !p(s@[start as int]));
        lemma_strip_front_subrange(s@, p, start as int);
        let f = s@.subrange(start as int, n as int);
        assert(forall|k: int| end - start <= k < f.len() ==> p(f[k]));
        if end > start {
            assert(!p(s@[end - 1]));
            assert(f[end - start - 1] == s@[end - 1]);
        }
        lemma_strip_back_subrange(f, p, end - start);
        assert(f.subrange(0, end - start) =~= s@.subrange(start as int, end as int));
    }
    let out = s.substring_char(start, end);
    out.to_owned()
}

/// Trims a `String`, sharing the contract of [`trim_str`].
pub fn trim_string(s: &String) -> (r: String)
    ensures
        r@ == trim_spec(s@),
{
    trim_str(s.as_str())
}

} // verus!
