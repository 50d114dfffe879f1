//! A light word counter: one file name on the command line, three counts
//! on the screen.

use crate::scan::{count, line_count, word_count};
use crate::text::{append_u64, decimal};
use vstd::prelude::*;
use vstd::string::StringExecFns;

verus! {

/// The arguments do not name exactly one file.
#[derive(Debug, Clone, Copy, PartialEq, Eq)]
pub struct UsageError;

impl UsageError {
    /// How to call the program.
    pub fn message(&self) -> (text: &'static str)
        ensures
            text@ == "Usage: wc-light <filename>"@,
    {
        "Usage: wc-light <filename>"
    }
}

/// The file name among the arguments of the program: the one argument after
/// the program's name.
pub fn get_filename(args: &Vec<String>) -> (filename: Result<String, UsageError>)
    ensures
        args@.len() == 2 ==> filename == Ok::<String, UsageError>(args@[1]),
        args@.len() != 2 ==> filename is Err,
{
    if args.len() != 2 {
        return Err(UsageError);
    }
    Ok(args[1].clone())
}

/// The three lines that report the counts of `content`.
pub fn wc(content: &str) -> (lines: Vec<String>)
    ensures
        lines@.len() == 3,
        lines@[0]@ == "Lines: "@ + decimal(line_count(content@)),
        lines@[1]@ == "Words: "@ + decimal(word_count(content@)),
        lines@[2]@ == "Chars: "@ + decimal(content@.len()),
{
    let counts = count(content);
    let mut first = String::from_str("Lines: ");
    append_u64(&mut first, counts.lines as u64);
    let mut second = String::from_str("Words: ");
    append_u64(&mut second, counts.words as u64);
    let mut third = String::from_str("Chars: ");
    append_u64(&mut third, counts.chars as u64);
    let mut lines: Vec<String> = Vec::new();
    lines.push(first);
    lines.push(second);
    lines.push(third);
    lines
}

} // verus!
