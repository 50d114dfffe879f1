//! Reading a number that must not be negative.

use crate::numbers::{parse_u32, unsigned_reading, NumberFault};
use crate::scan::{chars_of, trim, trimmed};
use vstd::prelude::*;
use vstd::string::StringExecFns;

verus! {

/// What [`parse_positive_number`] makes of `input`: the number, or the
/// words of the complaint.
pub open spec fn positive_reading(input: Seq<char>) -> Result<u32, Seq<char>> {
    let text = trimmed(input);
    if text.len() > 0 && text[0] == '-' {
        Err("Negative number not allowed"@)
    } else {
        match unsigned_reading(text) {
            Ok(value) => Ok(value),
            Err(NumberFault::InvalidDigit) => Err("Not a number"@),
            Err(NumberFault::PosOverflow) => Err("Number too large"@),
            Err(_) => Err("Unknown numeric error"@),
        }
    }
}

/// Reads an unsigned number, with white space allowed around it. A leading
/// minus sign, a character that is no digit and a number that is too large
/// are each told apart in the complaint.
pub fn parse_positive_number(input: &str) -> (r: Result<u32, String>)
    ensures
        match positive_reading(input@) {
            Ok(value) => r == Ok::<u32, String>(value),
            Err(complaint) => r matches Err(message) && message@ == complaint,
        },
{
    let text = trim(input);
    let chars = chars_of(text);
    if chars.len() > 0 && chars[0] == '-' {
        return Err(String::from_str("Negative number not allowed"));
    }
    match parse_u32(text) {
        Ok(value) => Ok(value),
        Err(NumberFault::InvalidDigit) => Err(String::from_str("Not a number")),
        Err(NumberFault::PosOverflow) => Err(String::from_str("Number too large")),
        Err(_) => Err(String::from_str("Unknown numeric error")),
    }
}

} // verus!
