//! Things that describe themselves, and numbers that double.

use crate::text::{decimal, render_u64};
use vstd::prelude::*;
use vstd::string::StringExecFns;

verus! {

/// Something with a description.
pub trait Describe {
    /// The description as a value of mathematics.
    spec fn description(&self) -> Seq<char>;

    fn describe(&self) -> (text: String)
        ensures
            text@ == self.description(),
    ;
}

/// A user with a name.
pub struct User {
    pub name: String,
}

impl Describe for User {
    open spec fn description(&self) -> Seq<char> {
        "User: "@ + self.name@
    }

    fn describe(&self) -> (text: String) {
        let mut text = String::from_str("User: ");
        text.append(self.name.as_str());
        text
    }
}

/// A system with an id.
pub struct System {
    pub id: u32,
}

impl Describe for System {
    open spec fn description(&self) -> Seq<char> {
        "System ID: "@ + decimal(self.id as nat)
    }

    fn describe(&self) -> (text: String) {
        let mut text = String::from_str("System ID: ");
        text.append(render_u64(self.id as u64).as_str());
        text
    }
}

/// A number that can be doubled.
pub trait Double: Sized {
    /// Whether twice the number fits the type.
    spec fn can_double(self) -> bool;

    /// Twice the number.
    spec fn doubled(self) -> Self;

    fn double(self) -> (r: Self)
        requires
            self.can_double(),
        ensures
            r == self.doubled(),
    ;
}

impl Double for i32 {
    open spec fn can_double(self) -> bool {
        i32::MIN <= 2 * self <= i32::MAX
    }

    open spec fn doubled(self) -> i32 {
        (2 * self) as i32
    }

    fn double(self) -> (r: i32) {
        self + self
    }
}

impl Double for u32 {
    open spec fn can_double(self) -> bool {
        2 * self <= u32::MAX
    }

    open spec fn doubled(self) -> u32 {
        (2 * self) as u32
    }

    fn double(self) -> (r: u32) {
        self * 2
    }
}

/// Doubles a value that was parsed from a text: `parsed` is `None` where
/// the text could not be parsed, which gives `Env error`.
pub fn parse_and_double<T: Double>(parsed: Option<T>) -> (r: Result<T, String>)
    requires
        parsed matches Some(value) ==> value.can_double(),
    ensures
        match parsed {
            Some(value) => r == Ok::<T, String>(value.doubled()),
            None => r matches Err(message) && message@ == "Env error"@,
        },
{
    match parsed {
        Some(value) => Ok(value.double()),
        None => Err(String::from_str("Env error")),
    }
}

} // verus!
