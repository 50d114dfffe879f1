//! Checking a parsed value, and sources of values.

use vstd::prelude::*;
use vstd::string::StringExecFns;

verus! {

/// Checks a value that was parsed from a text: `parsed` is `None` where the
/// text could not be parsed.
///
/// A text that could not be parsed gives `Parse error`, a value that the
/// validator turns down gives `Validation error`, and a value that it lets
/// through is handed back.
pub fn parse_and_validate<T, F>(parsed: Option<T>, validator: F) -> (r: Result<T, String>) where
    F: Fn(&T) -> bool,

    requires
        parsed matches Some(value) ==> call_requires(validator, (&value,)),
    ensures
        match parsed {
            None => r matches Err(message) && message@ == "Parse error"@,
            Some(value) => match r {
                Ok(kept) => kept == value && call_ensures(validator, (&value,), true),
                Err(message) => message@ == "Validation error"@ && call_ensures(
                    validator,
                    (&value,),
                    false,
                ),
            },
        },
{
    match parsed {
        None => Err(String::from_str("Parse error")),
        Some(value) => {
            if validator(&value) {
                Ok(value)
            } else {
                Err(String::from_str("Validation error"))
            }
        },
    }
}

/// Something that a `u32` can be read from.
pub trait DataSource {
    fn read_value(&self) -> Result<u32, String>;
}

/// A source that always gives the same value.
pub struct ConstSource(pub u32);

impl DataSource for ConstSource {
    fn read_value(&self) -> (r: Result<u32, String>)
        ensures
            r == Ok::<u32, String>(self.0),
    {
        Ok(self.0)
    }
}

/// What a source that reads a variable of the environment gives: the number
/// that the variable holds, or `Env error` where the variable is missing
/// (`None`) or holds no number.
pub fn env_value(found: Option<Option<u32>>) -> (r: Result<u32, String>)
    ensures
        match found {
            Some(Some(value)) => r == Ok::<u32, String>(value),
            _ => r matches Err(message) && message@ == "Env error"@,
        },
{
    match found {
        Some(Some(value)) => Ok(value),
        _ => Err(String::from_str("Env error")),
    }
}

} // verus!
