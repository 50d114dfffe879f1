//! A word counter's command line: a file name and a counting mode.

use crate::scan::{count, line_count, lowercase, same_text, to_lowercase, word_count};
use vstd::prelude::*;

verus! {

#[verifier::external_type_specification]
#[verifier::external_body]
pub struct ExIoError(std::io::Error);

/// Why the command line could not be carried out.
#[derive(Debug)]
pub enum CliError {
    MissingArgument,
    Io(std::io::Error),
    InvalidMode,
}

impl From<std::io::Error> for CliError {
    /// A failure of input or output as an error of the command line.
    fn from(e: std::io::Error) -> (error: Self) {
        CliError::Io(e)
    }
}

impl vstd::std_specs::convert::FromSpecImpl<std::io::Error> for CliError {
    open spec fn obeys_from_spec() -> bool {
        true
    }

    open spec fn from_spec(e: std::io::Error) -> Self {
        CliError::Io(e)
    }
}

/// The counts of a text.
#[derive(Debug, Clone, Copy, PartialEq, Eq)]
pub struct Analysis {
    pub lines: usize,
    pub words: usize,
    pub chars: usize,
}

/// Counts the lines, words and characters of the content of a file.
pub fn analyze(content: &str) -> (analysis: Analysis)
    ensures
        analysis.lines == line_count(content@),
        analysis.words == word_count(content@),
        analysis.chars == content@.len(),
{
    let counts = count(content);
    Analysis { lines: counts.lines, words: counts.words, chars: counts.chars }
}

/// What to count.
#[derive(Debug, Clone, Copy, PartialEq, Eq)]
pub enum Mode {
    Lines,
    Words,
    Chars,
    All,
}

/// The mode that a lower-case word names.
pub open spec fn mode_named(word: Seq<char>) -> Option<Mode> {
    if word == "lines"@ {
        Some(Mode::Lines)
    } else if word == "words"@ {
        Some(Mode::Words)
    } else if word == "chars"@ {
        Some(Mode::Chars)
    } else if word == "all"@ {
        Some(Mode::All)
    } else {
        None
    }
}

impl Mode {
    /// The mode that `word` names, taken as it is written.
    pub fn named(word: &str) -> (mode: Result<Mode, CliError>)
        ensures
            match mode_named(word@) {
                Some(m) => mode matches Ok(found) && found == m,
                None => mode matches Err(CliError::InvalidMode),
            },
    {
        if same_text(word, "lines") {
            Ok(Mode::Lines)
        } else if same_text(word, "words") {
            Ok(Mode::Words)
        } else if same_text(word, "chars") {
            Ok(Mode::Chars)
        } else if same_text(word, "all") {
            Ok(Mode::All)
        } else {
            Err(CliError::InvalidMode)
        }
    }

    /// The mode that `s` names, in whatever case it is written.
    pub fn from_str(s: &str) -> (mode: Result<Mode, CliError>)
        ensures
            match mode_named(lowercase(s@)) {
                Some(m) => mode matches Ok(found) && found == m,
                None => mode matches Err(CliError::InvalidMode),
            },
    {
        let lower = to_lowercase(s);
        Mode::named(lower.as_str())
    }
}

impl std::str::FromStr for Mode {
    type Err = CliError;

    /// The mode that `s` names, in whatever case it is written.
    fn from_str(s: &str) -> (mode: Result<Self, CliError>)
        ensures
            match mode_named(lowercase(s@)) {
                Some(m) => mode matches Ok(found) && found == m,
                None => mode matches Err(CliError::InvalidMode),
            },
    {
        Mode::from_str(s)
    }
}

/// A file name and a mode.
#[derive(Debug, PartialEq, Eq)]
pub struct Config {
    pub filename: String,
    pub mode: Mode,
}

impl Config {
    /// The configuration that the arguments of a program spell out: the
    /// program's name, the file name and the mode, and nothing else.
    pub fn from_vec(args: Vec<String>) -> (config: Result<Config, CliError>)
        ensures
            args@.len() != 3 ==> config matches Err(CliError::MissingArgument),
            args@.len() == 3 ==> match mode_named(lowercase(args@[2]@)) {
                Some(m) => config matches Ok(c) && c.filename@ == args@[1]@ && c.mode == m,
                None => config matches Err(CliError::InvalidMode),
            },
    {
        if args.len() != 3 {
            return Err(CliError::MissingArgument);
        }
        let filename = args[1].clone();
        let mode = Mode::from_str(args[2].as_str())?;
        Ok(Config { filename, mode })
    }

    /// The configuration that `args` spell out.
    pub fn from_args_custom(args: Vec<String>) -> (config: Result<Config, CliError>)
        ensures
            args@.len() != 3 ==> config matches Err(CliError::MissingArgument),
            args@.len() == 3 ==> match mode_named(lowercase(args@[2]@)) {
                Some(m) => config matches Ok(c) && c.filename@ == args@[1]@ && c.mode == m,
                None => config matches Err(CliError::InvalidMode),
            },
    {
        Self::from_vec(args)
    }
}

/// What to print for a configuration.
#[derive(Debug, Clone, Copy, PartialEq, Eq)]
pub enum Report {
    /// One count.
    Single(Mode, usize),
    /// All three counts.
    Full(Analysis),
}

/// Picks from `analysis` what `mode` asks for.
pub fn report(mode: Mode, analysis: Analysis) -> (r: Report)
    ensures
        r == match mode {
            Mode::Lines => Report::Single(mode, analysis.lines),
            Mode::Words => Report::Single(mode, analysis.words),
            Mode::Chars => Report::Single(mode, analysis.chars),
            Mode::All => Report::Full(analysis),
        },
{
    match mode {
        Mode::Lines => Report::Single(mode, analysis.lines),
        Mode::Words => Report::Single(mode, analysis.words),
        Mode::Chars => Report::Single(mode, analysis.chars),
        Mode::All => Report::Full(analysis),
    }
}

} // verus!
