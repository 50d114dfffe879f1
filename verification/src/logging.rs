//! The console listener: it refuses the reserved device id and words a line
//! for every change it accepts.

use crate::dispatcher::{ListenerError, StateListener};
use crate::store::{Reading, StateChange};
use crate::text::{decimal, render_u64};
use vstd::prelude::*;
use vstd::string::StringExecFns;

verus! {

/// One line for the console: the text, and the reading that the console
/// writes behind it where there is one.
#[derive(Debug, Clone, PartialEq, Eq)]
pub struct LogLine {
    pub text: String,
    pub reading: Option<Reading>,
}

/// Whether the console listener refuses `change`: the device id 0 is
/// reserved and cannot be created.
pub open spec fn refused(change: StateChange) -> bool {
    change == (StateChange::Created { id: 0 })
}

/// The text of the line that reports `change`.
pub open spec fn line_text(change: StateChange) -> Seq<char> {
    match change {
        StateChange::Created { id } => "Device "@ + decimal(id as nat) + " was created"@,
        StateChange::Updated { id, value } => "Device "@ + decimal(id as nat)
            + " was updated with value "@ + if value is None {
            "None"@
        } else {
            Seq::<char>::empty()
        },
        StateChange::Removed { id } => "Device "@ + decimal(id as nat) + " was removed"@,
    }
}

/// The reading that the line for `change` carries.
pub open spec fn line_reading(change: StateChange) -> Option<Reading> {
    match change {
        StateChange::Updated { value, .. } => value,
        _ => None,
    }
}

/// Words the line that reports `change`.
pub fn describe(change: StateChange) -> (line: LogLine)
    ensures
        line.text@ == line_text(change),
        line.reading == line_reading(change),
{
    let mut text = String::from_str("Device ");
    match change {
        StateChange::Created { id } => {
            text.append(render_u64(id as u64).as_str());
            text.append(" was created");
            LogLine { text, reading: None }
        },
        StateChange::Updated { id, value } => {
            text.append(render_u64(id as u64).as_str());
            text.append(" was updated with value ");
            match value {
                None => {
                    text.append("None");
                },
                Some(_) => {
                    assert(text@ + Seq::<char>::empty() =~= text@);
                },
            }
            LogLine { text, reading: value }
        },
        StateChange::Removed { id } => {
            text.append(render_u64(id as u64).as_str());
            text.append(" was removed");
            LogLine { text, reading: None }
        },
    }
}

/// The listener that writes changes to the console.
///
/// It words the lines and keeps them until they are taken and written.
pub struct ConsoleLogger {
    lines: Vec<LogLine>,
    seen: Ghost<Seq<StateChange>>,
}

impl ConsoleLogger {
    /// The lines that wait to be written, oldest first.
    pub closed spec fn pending(&self) -> Seq<LogLine> {
        self.lines@
    }

    /// A listener that has seen nothing.
    pub fn new() -> (logger: Self)
        ensures
            logger.pending().len() == 0,
            logger.received().len() == 0,
    {
        ConsoleLogger { lines: Vec::new(), seen: Ghost(Seq::empty()) }
    }

    /// Hands over the lines that wait to be written and forgets them.
    pub fn take_lines(&mut self) -> (lines: Vec<LogLine>)
        ensures
            lines@ == old(self).pending(),
            final(self).pending().len() == 0,
            final(self).received() == old(self).received(),
    {
        let mut lines: Vec<LogLine> = Vec::new();
        std::mem::swap(&mut self.lines, &mut lines);
        lines
    }
}

impl StateListener for ConsoleLogger {
    closed spec fn received(&self) -> Seq<StateChange> {
        self.seen@
    }

    open spec fn may_answer(&self, change: StateChange, answer: Result<(), ListenerError>) -> bool {
        match answer {
            Ok(_) => !refused(change),
            Err(e) => refused(change) && (e matches ListenerError::General(message) && message@
                == "Device ID 0 is reserved/invalid"@),
        }
    }

    /// Fails on the creation of device 0, and on nothing else. Every other
    /// change adds its line to those that wait to be written.
    fn on_event(&mut self, change: StateChange) -> (result: Result<(), ListenerError>)
        ensures
            refused(change) ==> final(self).pending() == old(self).pending(),
            !refused(change) ==> {
                &&& final(self).pending().len() == old(self).pending().len() + 1
                &&& final(self).pending().drop_last() == old(self).pending()
                &&& final(self).pending().last().text@ == line_text(change)
                &&& final(self).pending().last().reading == line_reading(change)
            },
    {
        proof {
            self.seen@ = self.seen@.push(change);
        }
        if let StateChange::Created { id } = change {
            if id == 0 {
                return Err(
                    ListenerError::General(String::from_str("Device ID 0 is reserved/invalid")),
                );
            }
        }
        let line = describe(change);
        self.lines.push(line);
        assert(self.lines@.drop_last() =~= old(self).lines@);
        Ok(())
    }
}

} // verus!
