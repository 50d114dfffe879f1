//! Doubling, adding and reading a number.

use crate::numbers::{parse_i32, signed_reading};
use crate::scan::{trim, trimmed};
use vstd::prelude::*;
use vstd::string::StringExecFns;

verus! {

/// Twice `v`, which must fit `i32`.
pub fn double(v: i32) -> (r: i32)
    requires
        i32::MIN <= 2 * v <= i32::MAX,
    ensures
        r == 2 * v,
{
    v * 2
}

/// What [`parse_number`] makes of `input`: the signed numeral that is left
/// when the white space around it is taken away, or nothing.
pub open spec fn number_in(input: Seq<char>) -> Option<i32> {
    match signed_reading(trimmed(input)) {
        Ok(value) => Some(value),
        Err(_) => None,
    }
}

/// Reads the number in `input`, with white space allowed around it. Any
/// other text gives the error `Parse error`.
pub fn parse_number(input: &str) -> (r: Result<i32, String>)
    ensures
        match number_in(input@) {
            Some(value) => r == Ok::<i32, String>(value),
            None => r matches Err(message) && message@ == "Parse error"@,
        },
{
    match parse_i32(trim(input)) {
        Ok(value) => Ok(value),
        Err(_) => Err(String::from_str("Parse error")),
    }
}

/// The sum of `a` and `b`, which must fit `i32`.
pub fn add(a: i32, b: i32) -> (r: i32)
    requires
        i32::MIN <= a + b <= i32::MAX,
    ensures
        r == a + b,
{
    a + b
}

} // verus!
