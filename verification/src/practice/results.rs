//! Errors as values: division, a number at the head of a text, and the
//! double of a loaded number.

use crate::numbers::{parse_i32, signed_reading, NumberFault};
use crate::scan::{chars_of, is_space, is_whitespace, leading_space, lemma_leading_space};
use vstd::prelude::*;
use vstd::string::StrSliceExecFns;

verus! {

/// Why a division has no result.
#[derive(Debug, Clone, Copy, PartialEq, Eq)]
pub enum MathError {
    DivisionByZero,
}

/// The quotient of `a` by `b`, rounded towards zero.
pub open spec fn quotient(a: int, b: int) -> int
    recommends
        b != 0,
{
    if a >= 0 {
        a / b
    } else {
        -((-a) / b)
    }
}

/// The quotient of `a` by `b`, rounded towards zero, or an error where `b`
/// is zero. The quotient must fit `i32`.
pub fn safe_division(a: i32, b: i32) -> (r: Result<i32, MathError>)
    requires
        !(a == i32::MIN && b == -1),
    ensures
        b == 0 ==> r == Err::<i32, MathError>(MathError::DivisionByZero),
        b != 0 ==> (r matches Ok(q) && q == quotient(a as int, b as int)),
{
    if b == 0 {
        return Err(MathError::DivisionByZero);
    }
    proof {
        lemma_quotient_bound(a as int, b as int);
    }
    Ok(a / b)
}

/// A quotient is no larger in magnitude than what is divided.
pub proof fn lemma_quotient_bound(a: int, b: int)
    requires
        b != 0,
    ensures
        a >= 0 ==> -a <= quotient(a, b) <= a,
        a < 0 ==> a <= quotient(a, b) <= -a,
        a < 0 && b != -1 ==> quotient(a, b) < -a,
{
    let x = if a >= 0 {
        a
    } else {
        -a
    };
    assert(-x <= x / b <= x) by (nonlinear_arith)
        requires
            x >= 0,
            b != 0,
    ;
    if a < 0 && b != -1 {
        assert(x / b > -x) by (nonlinear_arith)
            requires
                x > 0,
                b != 0,
                b != -1,
        ;
    }
}

/// Why no number could be read.
#[derive(Debug, Clone, Copy, PartialEq, Eq)]
pub enum ReadError {
    /// The first word is not a number.
    Parse(NumberFault),
    /// There is no word.
    NoStringAfterSplit,
}

/// Why no number could be loaded.
#[derive(Debug, Clone, Copy, PartialEq, Eq)]
pub enum LoadError {
    Read(ReadError),
    Negative,
}

/// How many characters the first word of `s` has: those before the first
/// white space.
pub open spec fn word_length(s: Seq<char>) -> nat
    decreases s.len(),
{
    if s.len() == 0 || is_whitespace(s[0]) {
        0
    } else {
        1 + word_length(s.drop_first())
    }
}

/// The first word of `s`: what stands between the white space at the front
/// and the next white space.
pub open spec fn first_word_of(s: Seq<char>) -> Seq<char> {
    let rest = s.subrange(leading_space(s) as int, s.len() as int);
    rest.subrange(0, word_length(rest) as int)
}

/// The number that the first word of `content` spells.
pub open spec fn number_at_head(content: Seq<char>) -> Result<i32, ReadError> {
    if leading_space(content) == content.len() {
        Err(ReadError::NoStringAfterSplit)
    } else {
        match signed_reading(first_word_of(content)) {
            Ok(value) => Ok(value),
            Err(fault) => Err(ReadError::Parse(fault)),
        }
    }
}

/// The first word of `s` ends at `at` where nothing before `at` is white
/// space and the character at `at`, if any, is.
pub proof fn lemma_word_length(s: Seq<char>, at: int)
    requires
        0 <= at <= s.len(),
        forall|k: int| 0 <= k < at ==> !is_whitespace(#[trigger] s[k]),
        at < s.len() ==> is_whitespace(s[at]),
    ensures
        word_length(s) == at,
    decreases s.len(),
{
    if at > 0 {
        let rest = s.drop_first();
        assert(!is_whitespace(s[0]));
        assert forall|k: int| 0 <= k < at - 1 implies !is_whitespace(#[trigger] rest[k]) by {
            assert(rest[k] == s[k + 1]);
        }
        lemma_word_length(rest, at - 1);
    }
}

/// Reads the number that the first word of `content` spells.
pub fn read_number(content: &str) -> (r: Result<i32, ReadError>)
    ensures
        r == number_at_head(content@),
{
    let chars = chars_of(content);
    let n = chars.len();
    let mut from: usize = 0;
    while from < n && is_space(chars[from])
        invariant
            from <= n,
            n == chars@.len(),
            forall|k: int| 0 <= k < from ==> is_whitespace(#[trigger] chars@[k]),
        decreases n - from,
    {
        from += 1;
    }
    proof {
        lemma_leading_space(chars@, from as int);
    }
    if from == n {
        return Err(ReadError::NoStringAfterSplit);
    }
    let ghost rest = chars@.subrange(from as int, n as int);
    let mut to: usize = from;
    while to < n && !is_space(chars[to])
        invariant
            from <= to <= n,
            n == chars@.len(),
            rest == chars@.subrange(from as int, n as int),
            forall|k: int| 0 <= k < to - from ==> !is_whitespace(#[trigger] rest[k]),
        decreases n - to,
    {
        to += 1;
    }
    proof {
        lemma_word_length(rest, to - from);
        assert(rest.subrange(0, to - from) =~= chars@.subrange(from as int, to as int));
    }
    let word = content.substring_char(from, to);
    match parse_i32(word) {
        Ok(value) => Ok(value),
        Err(fault) => Err(ReadError::Parse(fault)),
    }
}

/// Twice the number that was read, which must not be negative. Twice the
/// number must fit `i32`.
pub fn load_and_double(read: Result<i32, ReadError>) -> (r: Result<i32, LoadError>)
    requires
        read matches Ok(number) ==> 2 * number <= i32::MAX,
    ensures
        r == match read {
            Err(e) => Err::<i32, LoadError>(LoadError::Read(e)),
            Ok(number) => if number < 0 {
                Err(LoadError::Negative)
            } else {
                Ok((2 * number) as i32)
            },
        },
{
    let number = match read {
        Ok(number) => number,
        Err(e) => {
            return Err(LoadError::Read(e));
        },
    };
    if number < 0 {
        return Err(LoadError::Negative);
    }
    Ok(number * 2)
}

} // verus!
