//! The square of a number as the content of a file, and the first character
//! of a text as a digit.

use crate::numbers::{digit_of, digit_value, parse_u32, unsigned_reading, NumberFault};
use crate::scan::{chars_of, trim, trimmed};
use crate::text::{decimal, render_u64};
use vstd::prelude::*;
use vstd::string::StringExecFns;

verus! {

/// The number that `input` holds, with white space allowed around it.
pub open spec fn number_of(input: Seq<char>) -> Result<u32, NumberFault> {
    unsigned_reading(trimmed(input))
}

/// The text to write for `input`: the square of the number that `input`
/// holds, in decimal. The square must fit `u32`.
pub fn process_number(input: &str) -> (content: Result<String, NumberFault>)
    requires
        number_of(input@) matches Ok(n) ==> n * n <= u32::MAX,
    ensures
        match number_of(input@) {
            Ok(n) => content matches Ok(text) && text@ == decimal((n * n) as nat),
            Err(fault) => content == Err::<String, NumberFault>(fault),
        },
{
    let number = parse_u32(trim(input))?;
    assert(number * number <= u32::MAX);
    let square: u32 = number * number;
    Ok(render_u64(square as u64))
}

/// What [`first_char_as_digit`] makes of `input`.
pub open spec fn leading_digit(input: Seq<char>) -> Result<u32, Seq<char>> {
    if input.len() == 0 {
        Err("Empty string"@)
    } else {
        match digit_of(input[0]) {
            Some(d) => Ok(d as u32),
            None => Err("Not a digit"@),
        }
    }
}

/// The value of the first character of `input`, which must be a decimal
/// digit.
pub fn first_char_as_digit(input: &str) -> (r: Result<u32, String>)
    ensures
        match leading_digit(input@) {
            Ok(value) => r == Ok::<u32, String>(value),
            Err(complaint) => r matches Err(message) && message@ == complaint,
        },
{
    let chars = chars_of(input);
    if chars.len() == 0 {
        return Err(String::from_str("Empty string"));
    }
    match digit_value(chars[0]) {
        Some(d) => Ok(d),
        None => Err(String::from_str("Not a digit")),
    }
}

} // verus!
