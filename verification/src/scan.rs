//! Reading text: characters, white space, trimming and counting.

use vstd::prelude::*;
use vstd::string::StrSliceExecFns;
use vstd::string::StringExecFns;

verus! {

/// Whether `c` is white space: one of the code points that carry the Unicode
/// property `White_Space`.
pub open spec fn is_whitespace(c: char) -> bool {
    let u = c as u32;
    ||| 0x09 <= u <= 0x0D
    ||| u == 0x20
    ||| u == 0x85
    ||| u == 0xA0
    ||| u == 0x1680
    ||| 0x2000 <= u <= 0x200A
    ||| u == 0x2028
    ||| u == 0x2029
    ||| u == 0x202F
    ||| u == 0x205F
    ||| u == 0x3000
}

/// How many characters of white space `s` begins with.
pub open spec fn leading_space(s: Seq<char>) -> nat
    decreases s.len(),
{
    if s.len() == 0 || !is_whitespace(s[0]) {
        0
    } else {
        1 + leading_space(s.drop_first())
    }
}

/// How many characters of white space `s` ends with.
pub open spec fn trailing_space(s: Seq<char>) -> nat
    decreases s.len(),
{
    if s.len() == 0 || !is_whitespace(s.last()) {
        0
    } else {
        1 + trailing_space(s.drop_last())
    }
}

/// `s` without the white space at its two ends.
pub open spec fn trimmed(s: Seq<char>) -> Seq<char> {
    if leading_space(s) == s.len() {
        Seq::empty()
    } else {
        s.subrange(leading_space(s) as int, s.len() - trailing_space(s))
    }
}

/// How often `c` occurs in `s`.
pub open spec fn occurrences(s: Seq<char>, c: char) -> nat
    decreases s.len(),
{
    if s.len() == 0 {
        0
    } else {
        occurrences(s.drop_last(), c) + if s.last() == c {
            1nat
        } else {
            0nat
        }
    }
}

/// The number of lines of `s`: a line ends with a line feed, and a last line
/// without one counts too.
pub open spec fn line_count(s: Seq<char>) -> nat {
    occurrences(s, '\n') + if s.len() > 0 && s.last() != '\n' {
        1nat
    } else {
        0nat
    }
}

/// The number of words of `s`: the maximal runs of characters that are not
/// white space.
pub open spec fn word_count(s: Seq<char>) -> nat
    decreases s.len(),
{
    if s.len() == 0 {
        0
    } else {
        let before = s.drop_last();
        word_count(before) + if !is_whitespace(s.last()) && (before.len() == 0 || is_whitespace(
            before.last(),
        )) {
            1nat
        } else {
            0nat
        }
    }
}

/// A character occurs no more often than the text is long.
pub proof fn lemma_occurrences_bound(s: Seq<char>, c: char)
    ensures
        occurrences(s, c) <= s.len(),
    decreases s.len(),
{
    if s.len() > 0 {
        lemma_occurrences_bound(s.drop_last(), c);
    }
}

/// The white space at the front of `s` ends at `at` where everything before
/// `at` is white space and the character at `at`, if any, is not.
pub proof fn lemma_leading_space(s: Seq<char>, at: int)
    requires
        0 <= at <= s.len(),
        forall|k: int| 0 <= k < at ==> is_whitespace(#[trigger] s[k]),
        at < s.len() ==> !is_whitespace(s[at]),
    ensures
        leading_space(s) == at,
    decreases s.len(),
{
    if at > 0 {
        let rest = s.drop_first();
        assert(is_whitespace(s[0]));
        assert forall|k: int| 0 <= k < at - 1 implies is_whitespace(#[trigger] rest[k]) by {
            assert(rest[k] == s[k + 1]);
        }
        lemma_leading_space(rest, at - 1);
    }
}

/// The white space at the back of `s` starts at `at` where everything from
/// `at` on is white space and the character before `at`, if any, is not.
pub proof fn lemma_trailing_space(s: Seq<char>, at: int)
    requires
        0 <= at <= s.len(),
        forall|k: int| at <= k < s.len() ==> is_whitespace(#[trigger] s[k]),
        at > 0 ==> !is_whitespace(s[at - 1]),
    ensures
        trailing_space(s) == s.len() - at,
    decreases s.len(),
{
    if at < s.len() {
        let front = s.drop_last();
        assert(is_whitespace(s[s.len() - 1]));
        assert forall|k: int| at <= k < front.len() implies is_whitespace(#[trigger] front[k]) by {
            assert(front[k] == s[k]);
        }
        lemma_trailing_space(front, at);
    }
}

/// The lower-case form of a text.
pub uninterp spec fn lowercase(s: Seq<char>) -> Seq<char>;

/// `str::to_lowercase` of the standard library, which returns the lower-case
/// equivalent of a text as a new `String`. What that text is, is left to
/// the name `lowercase`.
#[verifier::external_body]
pub(crate) fn to_lowercase(s: &str) -> (lower: String)
    ensures
        lower@ == lowercase(s@),
{
    s.to_lowercase()
}

/// The upper-case form of a text.
pub uninterp spec fn uppercase(s: Seq<char>) -> Seq<char>;

/// `str::to_uppercase` of the standard library, which returns the upper-case
/// equivalent of a text as a new `String`. What that text is, is left to
/// the name `uppercase`.
#[verifier::external_body]
pub(crate) fn to_uppercase(s: &str) -> (upper: String)
    ensures
        upper@ == uppercase(s@),
{
    s.to_uppercase()
}

/// Whether a character is an upper-case letter.
pub uninterp spec fn upper_letter(c: char) -> bool;

/// `char::is_uppercase` of the standard library, which tells whether a
/// character has the Unicode property `Uppercase`. Which characters have it,
/// is left to the name `upper_letter`.
#[verifier::external_body]
pub(crate) fn is_uppercase(c: char) -> (upper: bool)
    ensures
        upper == upper_letter(c),
{
    c.is_uppercase()
}

/// Whether `c` is white space.
pub fn is_space(c: char) -> (space: bool)
    ensures
        space == is_whitespace(c),
{
    let u: u32 = c as u32;
    (0x09 <= u && u <= 0x0D) || u == 0x20 || u == 0x85 || u == 0xA0 || u == 0x1680 || (0x2000 <= u
        && u <= 0x200A) || u == 0x2028 || u == 0x2029 || u == 0x202F || u == 0x205F || u == 0x3000
}

/// The characters of `s`.
pub fn chars_of(s: &str) -> (chars: Vec<char>)
    ensures
        chars@ == s@,
{
    let mut chars: Vec<char> = Vec::new();
    for c in it: s.chars()
        invariant
            it.seq() == s@,
            chars@ == s@.subrange(0, it.index() as int),
    {
        chars.push(c);
        assert(chars@ =~= s@.subrange(0, it.index() + 1));
    }
    assert(s@.subrange(0, s@.len() as int) =~= s@);
    chars
}

/// Whether two texts are the same.
pub fn same_text(a: &str, b: &str) -> (same: bool)
    ensures
        same == (a@ == b@),
{
    let left = String::from_str(a);
    let right = String::from_str(b);
    left == right
}

/// `s` without the white space at its two ends.
pub fn trim(s: &str) -> (t: &str)
    ensures
        t@ == trimmed(s@),
{
    let chars = chars_of(s);
    let n = chars.len();
    let mut from: usize = 0;
    while from < n && is_space(chars[from])
        invariant
            from <= n,
            n == chars@.len(),
            forall|k: int| 0 <= k < from ==> is_whitespace(#[trigger] chars@[k]),
        decreases n - from,
    {
        from += 1;
    }
    proof {
        lemma_leading_space(chars@, from as int);
    }
    if from == n {
        let t = s.substring_char(n, n);
        assert(t@ =~= Seq::<char>::empty());
        return t;
    }
    let mut to: usize = n;
    while to > from && is_space(chars[to - 1])
        invariant
            from <= to <= n,
            n == chars@.len(),
            from < n,
            !is_whitespace(chars@[from as int]),
            forall|k: int| to <= k < n ==> is_whitespace(#[trigger] chars@[k]),
        decreases to,
    {
        to -= 1;
    }
    proof {
        lemma_trailing_space(chars@, to as int);
    }
    s.substring_char(from, to)
}

/// How many lines, words and characters a text has.
#[derive(Debug, Clone, Copy, PartialEq, Eq)]
pub struct Counts {
    pub lines: usize,
    pub words: usize,
    pub chars: usize,
}

/// Counts the lines, the words and the characters of `content`.
pub fn count(content: &str) -> (counts: Counts)
    ensures
        counts.lines == line_count(content@),
        counts.words == word_count(content@),
        counts.chars == content@.len(),
{
    let chars = chars_of(content);
    let n = chars.len();
    let mut feeds: usize = 0;
    let mut words: usize = 0;
    let mut i: usize = 0;
    while i < n
        invariant
            i <= n,
            n == chars@.len(),
            feeds == occurrences(chars@.subrange(0, i as int), '\n'),
            words == word_count(chars@.subrange(0, i as int)),
            feeds <= i,
            words <= i,
        decreases n - i,
    {
        let c = chars[i];
        proof {
            let through = chars@.subrange(0, i + 1);
            let before = chars@.subrange(0, i as int);
            assert(through.drop_last() =~= before);
            assert(through.last() == c);
            if i > 0 {
                assert(before.last() == chars@[i - 1]);
            }
        }
        if c == '\n' {
            feeds += 1;
        }
        if !is_space(c) && (i == 0 || is_space(chars[i - 1])) {
            words += 1;
        }
        i += 1;
    }
    assert(chars@.subrange(0, n as int) =~= chars@);
    let lines = if n > 0 && chars[n - 1] != '\n' {
        proof {
            lemma_occurrences_bound(chars@.drop_last(), '\n');
        }
        feeds + 1
    } else {
        feeds
    };
    Counts { lines, words, chars: n }
}

} // verus!
