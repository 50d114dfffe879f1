//! Borrowed texts that outlive the call.

use vstd::prelude::*;
use vstd::string::StringExecFns;
use vstd::string::StringSliceAdditionalSpecFns;

verus! {

/// The text that takes more bytes; the second where they take the same.
pub fn longer<'a>(a: &'a str, b: &'a str) -> (r: &'a str)
    ensures
        r == if a.spec_bytes().len() > b.spec_bytes().len() {
            a
        } else {
            b
        },
{
    if a.as_bytes().len() > b.as_bytes().len() {
        a
    } else {
        b
    }
}

/// A person with a borrowed name.
pub struct Person<'a> {
    pub name: &'a str,
}

/// The first byte of the person's name as a text. The name must hold a
/// character that ends after its first byte.
pub fn first_char<'a>(p: &'a Person) -> (initial: &'a str)
    requires
        p.name.spec_bytes().len() >= 1,
        vstd::utf8::is_char_boundary(p.name.spec_bytes(), 1),
    ensures
        initial.spec_bytes() == p.name.spec_bytes().subrange(0, 1),
{
    let (initial, _) = p.name.split_at(1);
    initial
}

/// A text that the caller owns.
pub fn good_ref() -> (s: String)
    ensures
        s@ == "hi"@,
{
    String::from_str("hi")
}

} // verus!
