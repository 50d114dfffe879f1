//! State machines: a traffic light, a word counter and a reader.

use crate::scan::{chars_of, is_space, is_whitespace, word_count};
use vstd::prelude::*;
use vstd::string::StrSliceExecFns;
use vstd::string::StringExecFns;
use vstd::string::StringSliceAdditionalSpecFns;

verus! {

/// A traffic light.
#[derive(Debug, Clone, Copy, PartialEq, Eq)]
pub enum Light {
    Red,
    Green,
    Yellow,
}

impl Light {
    /// The light that follows: red, green, yellow, and red again.
    pub fn next(self) -> (next: Self)
        ensures
            next == match self {
                Light::Red => Light::Green,
                Light::Green => Light::Yellow,
                Light::Yellow => Light::Red,
            },
    {
        match self {
            Light::Red => Light::Green,
            Light::Green => Light::Yellow,
            Light::Yellow => Light::Red,
        }
    }
}

/// Where the word counter stands.
#[derive(Debug, Clone, Copy, PartialEq, Eq)]
pub enum WordState {
    Start,
    InWord,
    BetweenWords,
}

/// The number of words of `s`: the runs of characters that are not white
/// space.
pub fn count_words(s: &str) -> (count: usize)
    ensures
        count == word_count(s@),
{
    let chars = chars_of(s);
    let mut state = WordState::Start;
    let mut word_count: usize = 0;
    let mut i: usize = 0;
    while i < chars.len()
        invariant
            i <= chars@.len(),
            word_count == crate::scan::word_count(chars@.subrange(0, i as int)),
            word_count <= i,
            state == WordState::InWord <==> (i > 0 && !is_whitespace(chars@[i - 1])),
        decreases chars@.len() - i,
    {
        let c = chars[i];
        let is_whitespace: bool = is_space(c);
        proof {
            let through = chars@.subrange(0, i + 1);
            let before = chars@.subrange(0, i as int);
            assert(through.drop_last() =~= before);
            assert(through.last() == c);
            if i > 0 {
                assert(before.last() == chars@[i - 1]);
            }
        }
        match state {
            WordState::Start | WordState::BetweenWords => {
                if !is_whitespace {
                    state = WordState::InWord;
                    word_count += 1
                }
            },
            WordState::InWord => {
                if is_whitespace {
                    state = WordState::BetweenWords
                }
            },
        }
        i += 1;
    }
    assert(chars@.subrange(0, i as int) =~= chars@);
    word_count
}

/// Where a reader stands.
#[derive(Debug, PartialEq, Eq)]
pub enum ReaderState {
    Closed,
    /// Open, with the number of characters read so far.
    Open(usize),
    Error(String),
}

/// A reader of characters.
#[derive(Debug)]
pub struct Reader {
    pub state: ReaderState,
}

impl Reader {
    /// Opens a closed reader at the start. Opening an open reader is an
    /// error, and a reader in error stays as it is.
    pub fn open(&mut self)
        ensures
            match old(self).state {
                ReaderState::Closed => final(self).state == ReaderState::Open(0),
                ReaderState::Open(_) => final(self).state matches ReaderState::Error(message)
                    && message@ == "already open"@,
                ReaderState::Error(_) => final(self).state == old(self).state,
            },
    {
        match self.state {
            ReaderState::Closed => self.state = ReaderState::Open(0),
            ReaderState::Open(_) => {
                self.state = ReaderState::Error(String::from_str("already open"));
            },
            ReaderState::Error(_) => {},
        }
    }

    /// Closes the reader, whatever its state.
    pub fn close(&mut self)
        ensures
            final(self).state == ReaderState::Closed,
    {
        self.state = ReaderState::Closed
    }

    /// Whether an open reader that has read `i` characters of `content`
    /// reads another one: it does while `i` is below the number of bytes of
    /// `content`.
    pub open spec fn reads_on(i: usize, content: &str) -> bool {
        i < content.spec_bytes().len()
    }

    /// Reads the next character of `content`. Only an open reader reads, and
    /// it reads while its position is below the number of bytes of `content`;
    /// the content must then hold a character at that position.
    pub fn read_char(&mut self, content: &str) -> (c: Option<char>)
        requires
            old(self).state matches ReaderState::Open(i) ==> (Self::reads_on(i, content) ==> i
                < content@.len()),
        ensures
            match old(self).state {
                ReaderState::Open(i) => if Self::reads_on(i, content) {
                    c == Some(content@[i as int]) && final(self).state == ReaderState::Open(
                        (i + 1) as usize,
                    )
                } else {
                    c is None && final(self).state == old(self).state
                },
                _ => c is None && final(self).state == old(self).state,
            },
    {
        match self.state {
            ReaderState::Closed => None,
            ReaderState::Open(i) => {
                if i < content.as_bytes().len() {
                    self.state = ReaderState::Open(i + 1);
                    Some(content.get_char(i))
                } else {
                    None
                }
            },
            ReaderState::Error(_) => None,
        }
    }
}

} // verus!
