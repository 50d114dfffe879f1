//! A command line with several commands: parsing the arguments into a
//! command, and wording the answer to a command.

use crate::scan::{count, line_count, lowercase, same_text, to_lowercase, word_count};
use crate::text::{decimal, render_u64};
use vstd::prelude::*;
use vstd::string::StringExecFns;

verus! {

/// What the user asks for.
#[derive(Debug, PartialEq, Eq)]
pub enum Command {
    Count { filename: String },
    StatsJSON { filename: String },
    FileSize { filename: String },
    StatsYAML { filename: String },
    Echo { text: String },
    Help,
}

/// A command as a value of mathematics.
pub enum CommandView {
    Count { filename: Seq<char> },
    StatsJSON { filename: Seq<char> },
    FileSize { filename: Seq<char> },
    StatsYAML { filename: Seq<char> },
    Echo { text: Seq<char> },
    Help,
}

impl View for Command {
    type V = CommandView;

    open spec fn view(&self) -> CommandView {
        match self {
            Command::Count { filename } => CommandView::Count { filename: filename@ },
            Command::StatsJSON { filename } => CommandView::StatsJSON { filename: filename@ },
            Command::FileSize { filename } => CommandView::FileSize { filename: filename@ },
            Command::StatsYAML { filename } => CommandView::StatsYAML { filename: filename@ },
            Command::Echo { text } => CommandView::Echo { text: text@ },
            Command::Help => CommandView::Help,
        }
    }
}

/// Why the command line could not be carried out.
#[derive(Debug)]
pub enum CliError {
    MissingArgument,
    Io(std::io::Error),
    InvalidCommand,
}

impl From<std::io::Error> for CliError {
    /// A failure of input or output as an error of the command line.
    fn from(e: std::io::Error) -> (error: Self) {
        CliError::Io(e)
    }
}

impl vstd::std_specs::convert::FromSpecImpl<std::io::Error> for CliError {
    open spec fn obeys_from_spec() -> bool {
        true
    }

    open spec fn from_spec(e: std::io::Error) -> Self {
        CliError::Io(e)
    }
}

/// The counts of a text.
#[derive(Debug, Clone, Copy, PartialEq, Eq)]
pub struct Analysis {
    pub lines: usize,
    pub words: usize,
    pub chars: usize,
}

/// Counts the lines, words and characters of the content of a file.
pub fn analyze(content: &str) -> (analysis: Analysis)
    ensures
        analysis.lines == line_count(content@),
        analysis.words == word_count(content@),
        analysis.chars == content@.len(),
{
    let counts = count(content);
    Analysis { lines: counts.lines, words: counts.words, chars: counts.chars }
}

/// A command.
#[derive(Debug, PartialEq, Eq)]
pub struct Config {
    pub command: Command,
}

/// The command that a lower-case word names, with its argument.
pub open spec fn command_named(word: Seq<char>, argument: Seq<char>) -> Option<CommandView> {
    if word == "count"@ {
        Some(CommandView::Count { filename: argument })
    } else if word == "size"@ {
        Some(CommandView::FileSize { filename: argument })
    } else if word == "statsjson"@ {
        Some(CommandView::StatsJSON { filename: argument })
    } else if word == "statsyaml"@ {
        Some(CommandView::StatsYAML { filename: argument })
    } else if word == "echo"@ {
        Some(CommandView::Echo { text: argument })
    } else {
        None
    }
}

/// Why arguments spell out no command.
pub enum Refusal {
    MissingArgument,
    InvalidCommand,
}

/// The command that the arguments of a program spell out. The first
/// argument is the program's name. `--help` stands alone; every other
/// command is a word, in whatever case, and one argument.
pub open spec fn command_of(args: Seq<String>) -> Result<CommandView, Refusal> {
    if args.len() <= 1 {
        Err(Refusal::MissingArgument)
    } else if args[1]@ == "--help"@ {
        if args.len() <= 2 {
            Ok(CommandView::Help)
        } else {
            Err(Refusal::MissingArgument)
        }
    } else if args.len() != 3 {
        Err(Refusal::MissingArgument)
    } else {
        match command_named(lowercase(args[1]@), args[2]@) {
            Some(command) => Ok(command),
            None => Err(Refusal::InvalidCommand),
        }
    }
}

/// Whether `result` is what `wanted` describes.
pub open spec fn agrees(result: Result<Command, CliError>, wanted: Result<CommandView, Refusal>) -> bool {
    match wanted {
        Ok(view) => result matches Ok(command) && command@ == view,
        Err(Refusal::MissingArgument) => result matches Err(CliError::MissingArgument),
        Err(Refusal::InvalidCommand) => result matches Err(CliError::InvalidCommand),
    }
}

/// The command that `word` names, taken as it is written, with `argument`.
pub fn command_for(word: &str, argument: &str) -> (command: Result<Command, CliError>)
    ensures
        match command_named(word@, argument@) {
            Some(view) => command matches Ok(c) && c@ == view,
            None => command matches Err(CliError::InvalidCommand),
        },
{
    if same_text(word, "count") {
        Ok(Command::Count { filename: String::from_str(argument) })
    } else if same_text(word, "size") {
        Ok(Command::FileSize { filename: String::from_str(argument) })
    } else if same_text(word, "statsjson") {
        Ok(Command::StatsJSON { filename: String::from_str(argument) })
    } else if same_text(word, "statsyaml") {
        Ok(Command::StatsYAML { filename: String::from_str(argument) })
    } else if same_text(word, "echo") {
        Ok(Command::Echo { text: String::from_str(argument) })
    } else {
        Err(CliError::InvalidCommand)
    }
}

/// Parses the arguments of a program into a command.
pub fn parse_args(args: &[String]) -> (command: Result<Command, CliError>)
    ensures
        agrees(command, command_of(args@)),
{
    if args.len() <= 1 {
        return Err(CliError::MissingArgument);
    }
    let help = same_text(args[1].as_str(), "--help");
    if help && args.len() <= 2 {
        return Ok(Command::Help);
    }
    if help && args.len() > 2 {
        return Err(CliError::MissingArgument);
    }
    if args.len() != 3 {
        return Err(CliError::MissingArgument);
    }
    let word = to_lowercase(args[1].as_str());
    command_for(word.as_str(), args[2].as_str())
}

impl Config {
    /// The configuration that the arguments of a program spell out.
    pub fn from_vec(args: Vec<String>) -> (config: Result<Config, CliError>)
        ensures
            match command_of(args@) {
                Ok(view) => config matches Ok(c) && c.command@ == view,
                Err(Refusal::MissingArgument) => config matches Err(CliError::MissingArgument),
                Err(Refusal::InvalidCommand) => config matches Err(CliError::InvalidCommand),
            },
    {
        let command = parse_args(args.as_slice())?;
        Ok(Config { command })
    }

    /// The configuration that `args` spell out.
    pub fn from_args_custom(args: Vec<String>) -> (config: Result<Config, CliError>)
        ensures
            match command_of(args@) {
                Ok(view) => config matches Ok(c) && c.command@ == view,
                Err(Refusal::MissingArgument) => config matches Err(CliError::MissingArgument),
                Err(Refusal::InvalidCommand) => config matches Err(CliError::InvalidCommand),
            },
    {
        Self::from_vec(args)
    }
}

/// What a command needs to know of a file before it can be answered.
#[derive(Debug, PartialEq, Eq)]
pub enum Need {
    /// The counts of the file's content.
    Analysis { filename: String },
    /// The size of the file in bytes.
    Size { filename: String },
    /// Nothing.
    Nothing,
}

/// What was found out for a command.
#[derive(Debug, Clone, Copy, PartialEq, Eq)]
pub enum Facts {
    Analysis(Analysis),
    Size(u64),
    Nothing,
}

/// Whether `facts` are what `command` needs.
pub open spec fn fits(command: CommandView, facts: Facts) -> bool {
    match command {
        CommandView::Count { .. } | CommandView::StatsJSON { .. } | CommandView::StatsYAML { .. } => facts is Analysis,
        CommandView::FileSize { .. } => facts is Size,
        CommandView::Echo { .. } | CommandView::Help => true,
    }
}

/// The text of the help.
pub open spec fn help_text() -> Seq<char> {
    "Commands\n\t\n        count <file>\tprints line/word/char counts\n\t\n        size  <file> \tprints size of file\n\t\n        statsjson <file>\tprints JSON analysis\n\t\n        statsyaml <file>\tprints YAML analysis\n\t\n        echo  <text>\tprints the text\n\t"@
}

/// The answer to `command`, given the facts it needs.
pub open spec fn answer(command: CommandView, facts: Facts) -> Seq<char> {
    match command {
        CommandView::Count { .. } => "lines: "@ + decimal(facts->Analysis_0.lines as nat)
            + ", words: "@ + decimal(facts->Analysis_0.words as nat) + ", chars: "@ + decimal(
            facts->Analysis_0.chars as nat,
        ),
        CommandView::StatsJSON { .. } => "{\"lines\": "@ + decimal(facts->Analysis_0.lines as nat)
            + ", \"words\": "@ + decimal(facts->Analysis_0.words as nat) + ", \"chars\": "@
            + decimal(facts->Analysis_0.chars as nat) + "}"@,
        CommandView::Echo { text } => "Echo: "@ + text,
        CommandView::FileSize { .. } => "Size of file is: "@ + decimal(facts->Size_0 as nat)
            + " Byte"@,
        CommandView::StatsYAML { .. } => "items:\n  lines: "@ + decimal(
            facts->Analysis_0.lines as nat,
        ) + "\n  words: "@ + decimal(facts->Analysis_0.words as nat) + "\n  chars: "@ + decimal(
            facts->Analysis_0.chars as nat,
        ),
        CommandView::Help => help_text(),
    }
}

/// What `command` needs to know before it can be answered.
pub fn need_of(command: &Command) -> (need: Need)
    ensures
        match command@ {
            CommandView::Count { filename } | CommandView::StatsJSON { filename } | CommandView::StatsYAML { filename } => need matches Need::Analysis { filename: f } && f@ == filename,
            CommandView::FileSize { filename } => need matches Need::Size { filename: f } && f@ == filename,
            CommandView::Echo { .. } | CommandView::Help => need is Nothing,
        },
{
    match command {
        Command::Count { filename } => Need::Analysis { filename: filename.clone() },
        Command::StatsJSON { filename } => Need::Analysis { filename: filename.clone() },
        Command::StatsYAML { filename } => Need::Analysis { filename: filename.clone() },
        Command::FileSize { filename } => Need::Size { filename: filename.clone() },
        Command::Echo { .. } => Need::Nothing,
        Command::Help => Need::Nothing,
    }
}

/// The help.
pub fn format_help() -> (help: String)
    ensures
        help@ == help_text(),
{
    String::from_str(
        "Commands\n\t\n        count <file>\tprints line/word/char counts\n\t\n        size  <file> \tprints size of file\n\t\n        statsjson <file>\tprints JSON analysis\n\t\n        statsyaml <file>\tprints YAML analysis\n\t\n        echo  <text>\tprints the text\n\t",
    )
}

/// Words the answer to `cmd`, given the facts that it needs. Where the facts
/// could not be found out, the failure is handed on.
pub fn execute(cmd: Command, facts: Result<Facts, CliError>) -> (output: Result<String, CliError>)
    requires
        facts matches Ok(f) ==> fits(cmd@, f),
    ensures
        match facts {
            Ok(f) => output matches Ok(text) && text@ == answer(cmd@, f),
            Err(e) => output == Err::<String, CliError>(e),
        },
{
    let facts = facts?;
    match cmd {
        Command::Count { filename: _ } => {
            let data = match facts {
                Facts::Analysis(a) => a,
                _ => Analysis { lines: 0, words: 0, chars: 0 },
            };
            let mut text = String::from_str("lines: ");
            text.append(render_u64(data.lines as u64).as_str());
            text.append(", words: ");
            text.append(render_u64(data.words as u64).as_str());
            text.append(", chars: ");
            text.append(render_u64(data.chars as u64).as_str());
            Ok(text)
        },
        Command::StatsJSON { filename: _ } => {
            let data = match facts {
                Facts::Analysis(a) => a,
                _ => Analysis { lines: 0, words: 0, chars: 0 },
            };
            let mut text = String::from_str("{\"lines\": ");
            text.append(render_u64(data.lines as u64).as_str());
            text.append(", \"words\": ");
            text.append(render_u64(data.words as u64).as_str());
            text.append(", \"chars\": ");
            text.append(render_u64(data.chars as u64).as_str());
            text.append("}");
            Ok(text)
        },
        Command::Echo { text } => {
            let mut out = String::from_str("Echo: ");
            out.append(text.as_str());
            Ok(out)
        },
        Command::FileSize { filename: _ } => {
            let size = match facts {
                Facts::Size(s) => s,
                _ => 0,
            };
            let mut text = String::from_str("Size of file is: ");
            text.append(render_u64(size).as_str());
            text.append(" Byte");
            Ok(text)
        },
        Command::StatsYAML { filename: _ } => {
            let data = match facts {
                Facts::Analysis(a) => a,
                _ => Analysis { lines: 0, words: 0, chars: 0 },
            };
            let mut text = String::from_str("items:\n  lines: ");
            text.append(render_u64(data.lines as u64).as_str());
            text.append("\n  words: ");
            text.append(render_u64(data.words as u64).as_str());
            text.append("\n  chars: ");
            text.append(render_u64(data.chars as u64).as_str());
            Ok(text)
        },
        Command::Help => Ok(format_help()),
    }
}

} // verus!
