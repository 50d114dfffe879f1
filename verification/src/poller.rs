//! The decisions of a polling adapter: which data point to read next, what
//! a read amounts to, and when to connect, poll, wait and stop.
//!
//! The adapter itself performs the reads and the waits; it asks this module
//! what to do and reports what happened.

use crate::decode::{decode, decoded, Decoded};
use crate::store::{DeviceId, GatewayEvent, Reading};
use vstd::prelude::*;

verus! {

/// The factor by which a raw value is multiplied, kept as the bit pattern of
/// an IEEE-754 double.
#[derive(Debug, Clone, Copy, PartialEq, Eq)]
pub struct Scale {
    pub bits: u64,
}

/// One configured data point: where to read it, how many words it spans,
/// which device it feeds and how to scale it.
#[derive(Debug, Clone, Copy, PartialEq, Eq)]
pub struct RegisterMapping {
    pub address: u16,
    pub count: u16,
    pub device_id: DeviceId,
    pub scale: Scale,
}

/// A read that the adapter is asked to perform.
#[derive(Debug, Clone, Copy, PartialEq, Eq)]
pub struct ReadRequest {
    pub address: u16,
    pub count: u16,
}

/// A decoded raw value, to be scaled and reported for its device.
#[derive(Debug, Clone, Copy, PartialEq, Eq)]
pub struct Sample {
    pub device_id: DeviceId,
    pub raw: i32,
    pub scale: Scale,
}

impl Sample {
    /// The event that reports this sample, once its raw value has been
    /// scaled to `scaled`.
    pub fn observed(&self, scaled: Reading) -> (event: GatewayEvent)
        ensures
            event == (GatewayEvent::ValueObserved { id: self.device_id, value: Some(scaled) }),
    {
        GatewayEvent::ValueObserved { id: self.device_id, value: Some(scaled) }
    }
}

/// What one read amounts to.
#[derive(Debug, Clone, Copy, PartialEq, Eq)]
pub enum ReadOutcome {
    /// The data point was decoded.
    Observed(Sample),
    /// The data point has an unsupported span and is passed over; the cycle
    /// goes on.
    Skipped { count: u16 },
    /// The read failed: the rest of the cycle is given up.
    Aborted,
}

/// The progress of one poll cycle over a list of mappings.
#[derive(Debug, Clone, Copy, PartialEq, Eq)]
pub struct PollCycle {
    pub cursor: usize,
    pub aborted: bool,
}

impl PollCycle {
    /// Whether a read is still due in this cycle over `mappings`.
    pub open spec fn pending(self, mappings: Seq<RegisterMapping>) -> bool {
        !self.aborted && self.cursor < mappings.len()
    }

    /// What a read result amounts to for the mapping that is due: `None`
    /// stands for a failed read, and so does a result with too few words.
    pub open spec fn outcome_of(
        self,
        mappings: Seq<RegisterMapping>,
        words: Option<Seq<u16>>,
    ) -> ReadOutcome {
        if !self.pending(mappings) {
            ReadOutcome::Aborted
        } else {
            let mapping = mappings[self.cursor as int];
            match words {
                None => ReadOutcome::Aborted,
                Some(w) => match decoded(mapping.count, w) {
                    Decoded::Value(raw) => ReadOutcome::Observed(
                        Sample { device_id: mapping.device_id, raw, scale: mapping.scale },
                    ),
                    Decoded::Unsupported => ReadOutcome::Skipped { count: mapping.count },
                    Decoded::Incomplete => ReadOutcome::Aborted,
                },
            }
        }
    }

    /// The cycle after a read result: one mapping further, or aborted.
    pub open spec fn after(
        self,
        mappings: Seq<RegisterMapping>,
        words: Option<Seq<u16>>,
    ) -> PollCycle {
        if !self.pending(mappings) {
            self
        } else if self.outcome_of(mappings, words) is Aborted {
            PollCycle { cursor: self.cursor, aborted: true }
        } else {
            PollCycle { cursor: (self.cursor + 1) as usize, aborted: false }
        }
    }

    /// A cycle that has read nothing yet.
    pub fn start() -> (cycle: PollCycle)
        ensures
            cycle == (PollCycle { cursor: 0, aborted: false }),
    {
        PollCycle { cursor: 0, aborted: false }
    }

    /// The read that is due, if the cycle is neither through nor aborted.
    pub fn next_read(&self, mappings: &Vec<RegisterMapping>) -> (request: Option<ReadRequest>)
        ensures
            request is Some <==> self.pending(mappings@),
            request matches Some(r) ==> r.address == mappings@[self.cursor as int].address
                && r.count == mappings@[self.cursor as int].count,
    {
        if !self.aborted && self.cursor < mappings.len() {
            let mapping = &mappings[self.cursor];
            Some(ReadRequest { address: mapping.address, count: mapping.count })
        } else {
            None
        }
    }

    /// Takes the result of the read that was due: the words read, or `None`
    /// where the read failed.
    ///
    /// A failed read aborts the cycle; an unsupported span is passed over.
    /// Where no read was due, nothing changes and the answer is `Aborted`.
    pub fn on_read(&mut self, mappings: &Vec<RegisterMapping>, words: Option<&Vec<u16>>) -> (outcome:
        ReadOutcome)
        ensures
            outcome == old(self).outcome_of(
                mappings@,
                match words {
                    Some(w) => Some(w@),
                    None => None,
                },
            ),
            *final(self) == old(self).after(
                mappings@,
                match words {
                    Some(w) => Some(w@),
                    None => None,
                },
            ),
    {
        if self.aborted || self.cursor >= mappings.len() {
            return ReadOutcome::Aborted;
        }
        let mapping = &mappings[self.cursor];
        match words {
            None => {
                self.aborted = true;
                ReadOutcome::Aborted
            },
            Some(w) => match decode(mapping.count, w) {
                Decoded::Value(raw) => {
                    self.cursor = self.cursor + 1;
                    ReadOutcome::Observed(
                        Sample { device_id: mapping.device_id, raw, scale: mapping.scale },
                    )
                },
                Decoded::Unsupported => {
                    self.cursor = self.cursor + 1;
                    ReadOutcome::Skipped { count: mapping.count }
                },
                Decoded::Incomplete => {
                    self.aborted = true;
                    ReadOutcome::Aborted
                },
            },
        }
    }

    /// Whether every mapping was read without a failure.
    pub fn completed(&self, mappings: &Vec<RegisterMapping>) -> (done: bool)
        ensures
            done == (!self.aborted && self.cursor >= mappings@.len()),
    {
        !self.aborted && self.cursor >= mappings.len()
    }
}

/// An unsupported span never aborts a cycle: the read after it is still due
/// if a mapping is left.
pub proof fn lemma_unsupported_span_is_skipped(
    cycle: PollCycle,
    mappings: Seq<RegisterMapping>,
    words: Seq<u16>,
)
    requires
        mappings.len() <= usize::MAX,
        cycle.pending(mappings),
        mappings[cycle.cursor as int].count != 1,
        mappings[cycle.cursor as int].count != 2,
    ensures
        cycle.outcome_of(mappings, Some(words)) == (ReadOutcome::Skipped {
            count: mappings[cycle.cursor as int].count,
        }),
        !cycle.after(mappings, Some(words)).aborted,
        cycle.after(mappings, Some(words)).cursor == cycle.cursor + 1,
{
}

/// A failed read ends the cycle: no further read is due, whatever is reported
/// afterwards.
pub proof fn lemma_failed_read_ends_cycle(
    cycle: PollCycle,
    mappings: Seq<RegisterMapping>,
    later: Option<Seq<u16>>,
)
    requires
        cycle.pending(mappings),
    ensures
        !cycle.after(mappings, None).pending(mappings),
        cycle.after(mappings, None).after(mappings, later) == cycle.after(mappings, None),
{
}

} // verus!
