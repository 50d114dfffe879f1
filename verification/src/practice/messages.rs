//! Messages that own or borrow their text, and text that is copied only
//! where it must change.

use crate::scan::{chars_of, is_uppercase, to_uppercase, upper_letter, uppercase};
use std::borrow::Cow;
use vstd::prelude::*;
use vstd::string::StringSliceAdditionalSpecFns;

verus! {

/// A message whose text is borrowed or owned.
pub enum Message<'a> {
    Borrowed(&'a str),
    Owned(String),
}

/// The text of a message.
pub open spec fn message_text(msg: Message) -> Seq<char> {
    match msg {
        Message::Borrowed(b) => b@,
        Message::Owned(o) => o@,
    }
}

/// The bytes that the text of a message takes.
pub fn msg_len<'a>(msg: &'a Message<'a>) -> (len: usize)
    ensures
        len == vstd::utf8::encode_utf8(message_text(*msg)).len(),
{
    match msg {
        Message::Borrowed(b) => b.as_bytes().len(),
        Message::Owned(o) => o.as_str().as_bytes().len(),
    }
}

/// A text with a level of emphasis.
pub struct Highlight<'a> {
    pub text: &'a str,
    pub level: u8,
}

/// The text at the first level of emphasis.
pub fn emphasize<'a>(text: &'a str) -> (highlight: Highlight<'a>)
    ensures
        highlight.text == text,
        highlight.level == 1,
{
    Highlight { text, level: 1 }
}

/// Whether every character of `s` is an upper-case letter.
pub open spec fn all_upper(s: Seq<char>) -> bool {
    forall|i: int| 0 <= i < s.len() ==> upper_letter(#[trigger] s[i])
}

/// Whether every character of `input` is an upper-case letter.
pub fn is_all_upper(input: &str) -> (all: bool)
    ensures
        all == all_upper(input@),
{
    let chars = chars_of(input);
    let mut i: usize = 0;
    while i < chars.len()
        invariant
            i <= chars@.len(),
            chars@ == input@,
            forall|k: int| 0 <= k < i ==> upper_letter(#[trigger] chars@[k]),
        decreases chars@.len() - i,
    {
        if !is_uppercase(chars[i]) {
            return false;
        }
        i += 1;
    }
    true
}

/// The text in upper case: the text itself, borrowed, where all of it is in
/// upper case already, and a copy in upper case where it is not.
pub fn maybe_uppercase<'a>(input: &'a str) -> (r: Cow<'a, str>)
    ensures
        all_upper(input@) ==> (r matches Cow::Borrowed(b) && b == input),
        !all_upper(input@) ==> (r matches Cow::Owned(o) && o@ == uppercase(input@)),
{
    if is_all_upper(input) {
        Cow::Borrowed(input)
    } else {
        Cow::Owned(to_uppercase(input))
    }
}

/// Something that can be looked at as a text.
pub trait AsStr {
    /// The text as a value of mathematics.
    spec fn text(&self) -> Seq<char>;

    fn as_str(&self) -> (s: &str)
        ensures
            s@ == self.text(),
    ;
}

impl AsStr for String {
    open spec fn text(&self) -> Seq<char> {
        self@
    }

    fn as_str(&self) -> (s: &str) {
        String::as_str(self)
    }
}

impl AsStr for &str {
    open spec fn text(&self) -> Seq<char> {
        self@
    }

    fn as_str(&self) -> (s: &str) {
        self
    }
}

impl<'a> AsStr for Cow<'a, str> {
    open spec fn text(&self) -> Seq<char> {
        self@
    }

    fn as_str(&self) -> (s: &str) {
        match self {
            Cow::Borrowed(b) => b,
            Cow::Owned(o) => String::as_str(o),
        }
    }
}

} // verus!
