//! Character-level text primitives shared by the trigger detector and the
//! command grammar.
//!
//! Unicode classification and case mapping are left to the standard library
//! and appear here only as named results; everything built on top of them
//! (substring search, trimming, token scanning) is verified against a
//! `Seq<char>` model.

use vstd::prelude::*;
use vstd::string::StringExecFns;

verus! {

/// What `str::to_lowercase` returns for the text `s`.
pub uninterp spec fn lowercase_of(s: Seq<char>) -> Seq<char>;

/// What `char::is_alphanumeric` returns for `c`.
pub uninterp spec fn char_is_alphanumeric(c: char) -> bool;

/// What `char::is_whitespace` returns for `c`.
pub uninterp spec fn char_is_whitespace(c: char) -> bool;

/// Calls `str::to_lowercase`. The contract only names the result: the
/// Unicode lowercase mapping is not restated here.
#[verifier::external_body]
pub(crate) fn lowercase(s: &str) -> (r: String)
    ensures
        r@ == lowercase_of(s@),
{
    s.to_lowercase()
}

/// Calls `char::is_alphanumeric`. The contract only names the result.
#[verifier::external_body]
pub(crate) fn is_alphanumeric(c: char) -> (r: bool)
    ensures
        r == char_is_alphanumeric(c),
{
    c.is_alphanumeric()
}

/// Calls `char::is_whitespace`. The contract only names the result.
#[verifier::external_body]
pub(crate) fn is_whitespace(c: char) -> (r: bool)
    ensures
        r == char_is_whitespace(c),
{
    c.is_whitespace()
}

/// A class of characters that trimming removes from the ends of a text.
#[derive(Clone, Copy, Debug, PartialEq, Eq)]
pub enum CharClass {
    /// Unicode whitespace.
    Whitespace,
    /// Everything that is neither a letter nor a number.
    NotAlphanumeric,
}

impl CharClass {
    /// Whether `c` belongs to the class.
    pub open spec fn holds(self, c: char) -> bool {
        match self {
            CharClass::Whitespace => char_is_whitespace(c),
            CharClass::NotAlphanumeric => !char_is_alphanumeric(c),
        }
    }

    /// Decides membership of `c` in the class.
    pub fn test(&self, c: char) -> (r: bool)
        ensures
            r == self.holds(c),
    {
        match self {
            CharClass::Whitespace => is_whitespace(c),
            CharClass::NotAlphanumeric => !is_alphanumeric(c),
        }
    }
}

/// `pat` occurs in `text` starting at index `i`.
pub open spec fn occurs_at(text: Seq<char>, pat: Seq<char>, i: int) -> bool {
    &&& 0 <= i
    &&& i + pat.len() <= text.len()
    &&& text.subrange(i, i + pat.len()) == pat
}

/// `pat` occurs somewhere in `text` as a contiguous run of characters.
pub open spec fn contains_seq(text: Seq<char>, pat: Seq<char>) -> bool {
    exists|i: int| occurs_at(text, pat, i)
}

/// `text` begins with `prefix`.
pub open spec fn starts_with_seq(text: Seq<char>, prefix: Seq<char>) -> bool {
    occurs_at(text, prefix, 0)
}

/// `s` without its longest prefix made of characters of `class`.
pub open spec fn trim_start(s: Seq<char>, class: CharClass) -> Seq<char>
    decreases s.len(),
{
    if s.len() > 0 && class.holds(s[0]) {
        trim_start(s.subrange(1, s.len() as int), class)
    } else {
        s
    }
}

/// `s` without its longest suffix made of characters of `class`.
pub open spec fn trim_end(s: Seq<char>, class: CharClass) -> Seq<char>
    decreases s.len(),
{
    if s.len() > 0 && class.holds(s[s.len() - 1]) {
        trim_end(s.subrange(0, s.len() - 1), class)
    } else {
        s
    }
}

/// `s` with characters of `class` removed from both ends.
pub open spec fn trim(s: Seq<char>, class: CharClass) -> Seq<char> {
    trim_end(trim_start(s, class), class)
}

/// Every character of `s` is a letter or a number.
pub open spec fn all_alphanumeric(s: Seq<char>) -> bool {
    forall|i: int| 0 <= i < s.len() ==> char_is_alphanumeric(#[trigger] s[i])
}

/// The half-open range `[a, b)` of `text` is a whitespace-delimited token:
/// a non-empty maximal run of characters that are not whitespace.
pub open spec fn is_token(text: Seq<char>, a: int, b: int) -> bool {
    &&& 0 <= a < b <= text.len()
    &&& (a == 0 || char_is_whitespace(text[a - 1]))
    &&& (b == text.len() || char_is_whitespace(text[b]))
    &&& forall|k: int| a <= k < b ==> !char_is_whitespace(#[trigger] text[k])
}

/// Some whitespace-delimited token of `text`, once stripped of the
/// non-alphanumeric characters at its ends, is exactly `word`.
pub open spec fn has_word(text: Seq<char>, word: Seq<char>) -> bool {
    exists|a: int, b: int|
        is_token(text, a, b) && #[trigger] trim(
            text.subrange(a, b),
            CharClass::NotAlphanumeric,
        ) == word
}

/// Skipping `k` leading characters that all belong to `class`, up to the
/// first one that does not, is what `trim_start` does.
pub proof fn lemma_trim_start(s: Seq<char>, class: CharClass, k: int)
    requires
        0 <= k <= s.len(),
        forall|i: int| 0 <= i < k ==> class.holds(#[trigger] s[i]),
        k == s.len() || !class.holds(s[k]),
    ensures
        trim_start(s, class) == s.subrange(k, s.len() as int),
    decreases k,
{
    if k == 0 {
        assert(s.subrange(0, s.len() as int) =~= s);
    } else {
        let rest = s.subrange(1, s.len() as int);
        assert(class.holds(s[0]));
        assert forall|i: int| 0 <= i < k - 1 implies class.holds(#[trigger] rest[i]) by {
            assert(rest[i] == s[i + 1]);
        }
        lemma_trim_start(rest, class, k - 1);
        assert(rest.subrange(k - 1, rest.len() as int) =~= s.subrange(k, s.len() as int));
    }
}

/// Dropping the trailing characters from index `k` on, all of `class`, down
/// to the last one that is not, is what `trim_end` does.
pub proof fn lemma_trim_end(s: Seq<char>, class: CharClass, k: int)
    requires
        0 <= k <= s.len(),
        forall|i: int| k <= i < s.len() ==> class.holds(#[trigger] s[i]),
        k == 0 || !class.holds(s[k - 1]),
    ensures
        trim_end(s, class) == s.subrange(0, k),
    decreases s.len() - k,
{
    if k == s.len() {
        assert(s.subrange(0, k) =~= s);
    } else {
        let rest = s.subrange(0, s.len() - 1);
        assert(class.holds(s[s.len() - 1]));
        assert forall|i: int| k <= i < rest.len() implies class.holds(#[trigger] rest[i]) by {
            assert(rest[i] == s[i]);
        }
        lemma_trim_end(rest, class, k);
        assert(rest.subrange(0, k) =~= s.subrange(0, k));
    }
}

/// A text trimmed at its start is a suffix of the text.
pub proof fn lemma_trim_start_is_suffix(s: Seq<char>, class: CharClass) -> (k: int)
    ensures
        0 <= k <= s.len(),
        trim_start(s, class) == s.subrange(k, s.len() as int),
    decreases s.len(),
{
    if s.len() > 0 && class.holds(s[0]) {
        let rest = s.subrange(1, s.len() as int);
        let j = lemma_trim_start_is_suffix(rest, class);
        assert(rest.subrange(j, rest.len() as int) =~= s.subrange(j + 1, s.len() as int));
        j + 1
    } else {
        assert(s.subrange(0, s.len() as int) =~= s);
        0
    }
}

/// A text trimmed at its end is a prefix of the text.
pub proof fn lemma_trim_end_is_prefix(s: Seq<char>, class: CharClass) -> (k: int)
    ensures
        0 <= k <= s.len(),
        trim_end(s, class) == s.subrange(0, k),
    decreases s.len(),
{
    if s.len() > 0 && class.holds(s[s.len() - 1]) {
        let rest = s.subrange(0, s.len() - 1);
        let j = lemma_trim_end_is_prefix(rest, class);
        assert(rest.subrange(0, j) =~= s.subrange(0, j));
        j
    } else {
        assert(s.subrange(0, s.len() as int) =~= s);
        s.len() as int
    }
}

/// A trimmed text is a contiguous part of the text it was trimmed from.
pub proof fn lemma_trim_is_part(s: Seq<char>, class: CharClass) -> (bounds: (int, int))
    ensures
        0 <= bounds.0 <= bounds.1 <= s.len(),
        trim(s, class) == s.subrange(bounds.0, bounds.1),
{
    let a = lemma_trim_start_is_suffix(s, class);
    let mid = s.subrange(a, s.len() as int);
    let b = lemma_trim_end_is_prefix(mid, class);
    assert(mid.subrange(0, b) =~= s.subrange(a, a + b));
    (a, a + b)
}

/// The characters of `s`, in order.
pub fn to_chars(s: &str) -> (v: Vec<char>)
    ensures
        v@ == s@,
{
    let mut v: Vec<char> = Vec::new();
    for c in it: s.chars()
        invariant
            it.seq() == s@,
            v@ == s@.subrange(0, it.index() as int),
    {
        v.push(c);
        assert(v@ =~= s@.subrange(0, it.index() + 1));
    }
    assert(v@ =~= s@);
    v
}

/// Whether `pat` occurs in `text` at index `i`.
pub fn matches_at(text: &Vec<char>, pat: &Vec<char>, i: usize) -> (r: bool)
    ensures
        r == occurs_at(text@, pat@, i as int),
{
    let n: usize = text.len();
    let m: usize = pat.len();
    if m > n || i > n - m {
        return false;
    }
    let mut j: usize = 0;
    while j < m
        invariant
            n == text.len(),
            m == pat.len(),
            m <= n,
            i <= n - m,
            j <= m,
            forall|k: int| 0 <= k < j ==> text@[i + k] == pat@[k],
        decreases m - j,
    {
        if text[i + j] != pat[j] {
            proof {
                let part = text@.subrange(i as int, i + m);
                assert(part[j as int] == text@[i + j]);
            }
            return false;
        }
        j += 1;
    }
    assert(text@.subrange(i as int, i + m) =~= pat@);
    true
}

/// Whether `pat` occurs anywhere in `text`.
pub fn contains_chars(text: &Vec<char>, pat: &Vec<char>) -> (r: bool)
    ensures
        r == contains_seq(text@, pat@),
{
    let n: usize = text.len();
    let m: usize = pat.len();
    if m > n {
        return false;
    }
    let last: usize = n - m;
    let mut i: usize = 0;
    loop
        invariant
            n == text.len(),
            m == pat.len(),
            last == n - m,
            i <= last,
            forall|k: int| 0 <= k < i ==> !occurs_at(text@, pat@, k),
        decreases last - i,
    {
        if matches_at(text, pat, i) {
            return true;
        }
        if i == last {
            return false;
        }
        i += 1;
    }
}

/// Whether `text` begins with `prefix`.
pub fn starts_with_chars(text: &Vec<char>, prefix: &Vec<char>) -> (r: bool)
    ensures
        r == starts_with_seq(text@, prefix@),
{
    matches_at(text, prefix, 0)
}

/// Whether the range `[lo, hi)` of `text` spells exactly `word`.
pub fn range_equals(text: &Vec<char>, lo: usize, hi: usize, word: &Vec<char>) -> (r: bool)
    requires
        lo <= hi <= text.len(),
    ensures
        r == (text@.subrange(lo as int, hi as int) == word@),
{
    if hi - lo != word.len() {
        return false;
    }
    let r = matches_at(text, word, lo);
    assert(text@.subrange(lo as int, lo + word.len()) == text@.subrange(lo as int, hi as int));
    r
}

/// Trims the range `[lo, hi)` of `text`: the returned bounds delimit what
/// is left once characters of `class` are removed from both of its ends.
pub fn trim_bounds(text: &Vec<char>, lo: usize, hi: usize, class: CharClass) -> (r: (usize, usize))
    requires
        lo <= hi <= text.len(),
    ensures
        lo <= r.0 <= r.1 <= hi,
        text@.subrange(r.0 as int, r.1 as int) == trim(text@.subrange(lo as int, hi as int), class),
{
    let ghost part = text@.subrange(lo as int, hi as int);
    let mut a: usize = lo;
    while a < hi && class.test(text[a])
        invariant
            lo <= a <= hi <= text.len(),
            part == text@.subrange(lo as int, hi as int),
            forall|i: int| 0 <= i < a - lo ==> class.holds(#[trigger] part[i]),
        decreases hi - a,
    {
        a += 1;
    }
    proof {
        lemma_trim_start(part, class, a - lo);
    }
    let ghost mid = part.subrange(a - lo, part.len() as int);
    assert(mid =~= text@.subrange(a as int, hi as int));
    let mut b: usize = hi;
    while b > a && class.test(text[b - 1])
        invariant
            a <= b <= hi <= text.len(),
            mid == text@.subrange(a as int, hi as int),
            forall|i: int| b - a <= i < mid.len() ==> class.holds(#[trigger] mid[i]),
        decreases b - a,
    {
        b -= 1;
    }
    proof {
        lemma_trim_end(mid, class, b - a);
        assert(mid.subrange(0, b - a) =~= text@.subrange(a as int, b as int));
    }
    (a, b)
}

/// Whether every character of `chars` is a letter or a number.
pub fn all_alphanumeric_chars(chars: &Vec<char>) -> (r: bool)
    ensures
        r == all_alphanumeric(chars@),
{
    let mut i: usize = 0;
    while i < chars.len()
        invariant
            i <= chars.len(),
            forall|k: int| 0 <= k < i ==> char_is_alphanumeric(#[trigger] chars@[k]),
        decreases chars.len() - i,
    {
        if !is_alphanumeric(chars[i]) {
            return false;
        }
        i += 1;
    }
    true
}

/// Whether some whitespace-delimited token of `text`, stripped of the
/// non-alphanumeric characters at its ends, is exactly `word`.
pub fn has_word_chars(text: &Vec<char>, word: &Vec<char>) -> (r: bool)
    ensures
        r == has_word(text@, word@),
{
    let n: usize = text.len();
    let mut i: usize = 0;
    while i < n
        invariant
            n == text.len(),
            i <= n,
            i == 0 || i == n || char_is_whitespace(text@[i - 1]) || char_is_whitespace(text@[i as int]),
            forall|a: int, b: int| #[trigger]
                is_token(text@, a, b) && b <= i ==> trim(
                    text@.subrange(a, b),
                    CharClass::NotAlphanumeric,
                ) != word@,
        decreases n - i,
    {
        if is_whitespace(text[i]) {
            i += 1;
        } else {
            let mut j: usize = i + 1;
            while j < n && !is_whitespace(text[j])
                invariant
                    n == text.len(),
                    i < j <= n,
                    forall|k: int| i <= k < j ==> !char_is_whitespace(#[trigger] text@[k]),
                decreases n - j,
            {
                j += 1;
            }
            assert(is_token(text@, i as int, j as int));
            let (a, b) = trim_bounds(text, i, j, CharClass::NotAlphanumeric);
            if range_equals(text, a, b, word) {
                return true;
            }
            assert forall|a2: int, b2: int| #[trigger]
                is_token(text@, a2, b2) && b2 <= j implies trim(
                text@.subrange(a2, b2),
                CharClass::NotAlphanumeric,
            ) != word@ by {
                if b2 > i {
                    assert(!char_is_whitespace(text@[b2 - 1]));
                    if b2 < j {
                        assert(!char_is_whitespace(text@[b2]));
                    }
                    if a2 < i {
                        assert(!char_is_whitespace(text@[i - 1]));
                    }
                    if a2 > i {
                        assert(!char_is_whitespace(text@[a2 - 1]));
                    }
                    assert(a2 == i && b2 == j);
                }
            }
            i = j;
        }
    }
    false
}

/// A word found among the tokens of a text also occurs in the text as a
/// plain substring: the token test never matches where the substring test
/// does not.
pub proof fn lemma_word_is_substring(text: Seq<char>, word: Seq<char>)
    requires
        has_word(text, word),
    ensures
        contains_seq(text, word),
{
    let (a, b) = choose|a: int, b: int|
        is_token(text, a, b) && #[trigger] trim(text.subrange(a, b), CharClass::NotAlphanumeric)
            == word;
    let token = text.subrange(a, b);
    let (x, y) = lemma_trim_is_part(token, CharClass::NotAlphanumeric);
    assert(token.subrange(x, y) =~= text.subrange(a + x, a + y));
    assert(occurs_at(text, word, a + x));
}

/// Whether two texts hold the same characters.
pub fn text_eq(a: &str, b: &str) -> (r: bool)
    ensures
        r == (a@ == b@),
{
    a.to_owned() == b.to_owned()
}

/// The text `a` followed by the text `b`.
pub fn join2(a: &str, b: &str) -> (r: String)
    ensures
        r@ == a@ + b@,
{
    a.to_owned().concat(b)
}

/// The texts `a`, `b` and `c`, one after the other.
pub fn join3(a: &str, b: &str, c: &str) -> (r: String)
    ensures
        r@ == a@ + b@ + c@,
{
    a.to_owned().concat(b).concat(c)
}

/// The part of `s` between the character positions `from` and `to`.
pub fn slice_chars(s: &str, from: usize, to: usize) -> (r: String)
    requires
        from <= to <= s@.len(),
    ensures
        r@ == s@.subrange(from as int, to as int),
{
    s.substring_char(from, to).to_owned()
}

/// `s` with characters of `class` removed from both ends.
pub fn trim_text(s: &str, class: CharClass) -> (r: String)
    ensures
        r@ == trim(s@, class),
{
    let chars = to_chars(s);
    let (a, b) = trim_bounds(&chars, 0, chars.len(), class);
    assert(chars@.subrange(0, chars@.len() as int) =~= chars@);
    slice_chars(s, a, b)
}

/// Whether `pat` occurs anywhere in `text`.
pub fn contains_text(text: &str, pat: &str) -> (r: bool)
    ensures
        r == contains_seq(text@, pat@),
{
    let t = to_chars(text);
    let p = to_chars(pat);
    contains_chars(&t, &p)
}

} // verus!
