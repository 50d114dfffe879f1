//! The event loop: the single consumer of events and the only caller of
//! [`GatewayState::apply_event`].
//!
//! Each event is applied to the state; a change that the state accepts is
//! handed to the dispatcher before the next event is looked at.

use crate::dispatcher::{Dispatcher, ListenerError, StateListener};
use crate::state::GatewayState;
use crate::store::{
    changes, distinct_ids, next_records, next_state, outcome, rejections, replay, table_of,
    DeviceRecord, Devices, GatewayEvent, NotFound, StateChange,
};
use vstd::prelude::*;

verus! {

/// What became of one event.
#[derive(Debug)]
pub enum Handled {
    /// The state accepted a change, and every listener was handed it; the
    /// answers of the listeners are kept, by position.
    Dispatched { change: StateChange, answers: Vec<Result<(), ListenerError>> },
    /// The event changed nothing.
    Unchanged,
    /// The event named an unknown device and was dropped.
    Rejected(NotFound),
}

/// What became of a run of events.
#[derive(Debug)]
pub struct RunReport {
    /// The accepted changes, in the order of the events that caused them.
    pub changes: Vec<StateChange>,
    /// How many events were rejected.
    pub rejected: usize,
}

/// Owns the state and the dispatcher, and serialises every mutation.
pub struct Orchestrator<L: StateListener> {
    state: GatewayState,
    dispatcher: Dispatcher<L>,
}

impl<L: StateListener> Orchestrator<L> {
    /// The records of the state, in the order in which their devices were
    /// created.
    pub closed spec fn records(&self) -> Seq<DeviceRecord> {
        self.state.records()
    }

    /// The invariant of an orchestrator: that of its state.
    pub open spec fn wf(&self) -> bool {
        distinct_ids(self.records())
    }

    /// The content of the state.
    pub open spec fn devices(&self) -> Devices {
        table_of(self.records())
    }

    /// The listeners, in registration order.
    pub closed spec fn listeners(&self) -> Seq<L> {
        self.dispatcher.listeners()
    }

    /// An orchestrator over `state` that notifies the listeners of
    /// `dispatcher`.
    pub fn new(state: GatewayState, dispatcher: Dispatcher<L>) -> (orchestrator: Self)
        requires
            state.wf(),
        ensures
            orchestrator.wf(),
            orchestrator.records() == state.records(),
            orchestrator.devices() == state@,
            orchestrator.listeners() == dispatcher.listeners(),
    {
        Orchestrator { state, dispatcher }
    }

    /// Applies one event and, where the state accepts a change, hands the
    /// change to every listener.
    ///
    /// A rejected event and an event without effect reach no listener.
    pub fn handle(&mut self, event: GatewayEvent) -> (handled: Handled)
        requires
            old(self).wf(),
        ensures
            final(self).wf(),
            final(self).devices() == next_state(old(self).devices(), event),
            final(self).records() == next_records(old(self).records(), event),
            final(self).listeners().len() == old(self).listeners().len(),
            match outcome(old(self).devices(), event) {
                Ok(Some(change)) => {
                    &&& handled matches Handled::Dispatched { change: c, answers }
                    &&& c == change
                    &&& answers@.len() == old(self).listeners().len()
                    &&& forall|i: int|
                        0 <= i < old(self).listeners().len() ==> (#[trigger] final(self)
                            .listeners()[i]).received() == old(self).listeners()[i].received()
                            .push(change)
                    &&& forall|i: int|
                        0 <= i < old(self).listeners().len() ==> old(self).listeners()[i]
                            .may_answer(change, #[trigger] answers@[i])
                },
                Ok(None) => handled is Unchanged && final(self).listeners() == old(self).listeners(),
                Err(not_found) => handled == Handled::Rejected(not_found) && final(self).listeners()
                    == old(self).listeners(),
            },
    {
        match self.state.apply_event(event) {
            Ok(Some(change)) => {
                let answers = self.dispatcher.dispatch(change);
                Handled::Dispatched { change, answers }
            },
            Ok(None) => Handled::Unchanged,
            Err(not_found) => Handled::Rejected(not_found),
        }
    }

    /// Handles a run of events in order, each one to the end before the next:
    /// what the loop does with everything a channel delivers until it closes.
    ///
    /// The state ends as the replay of the events leaves it, and every
    /// listener has been handed exactly the accepted changes, in order.
    pub fn run(&mut self, events: &Vec<GatewayEvent>) -> (report: RunReport)
        requires
            old(self).wf(),
        ensures
            final(self).wf(),
            final(self).devices() == replay(old(self).devices(), events@),
            report.changes@ == changes(old(self).devices(), events@),
            report.rejected == rejections(old(self).devices(), events@),
            final(self).listeners().len() == old(self).listeners().len(),
            forall|i: int|
                0 <= i < old(self).listeners().len() ==> (#[trigger] final(self).listeners()[i])
                    .received() == old(self).listeners()[i].received() + changes(
                    old(self).devices(),
                    events@,
                ),
    {
        let mut accepted: Vec<StateChange> = Vec::new();
        let mut rejected: usize = 0;
        let mut i: usize = 0;
        let ghost start = self.devices();
        assert(events@.subrange(0, 0) =~= Seq::<GatewayEvent>::empty());
        assert forall|k: int| 0 <= k < old(self).listeners().len() implies (
        #[trigger] self.listeners()[k]).received() == old(self).listeners()[k].received()
            + Seq::<StateChange>::empty() by {
            assert(old(self).listeners()[k].received() + Seq::<StateChange>::empty() =~= old(self).listeners()[k].received());
        }
        while i < events.len()
            invariant
                i <= events@.len(),
                self.wf(),
                start == old(self).devices(),
                self.devices() == replay(start, events@.subrange(0, i as int)),
                accepted@ == changes(start, events@.subrange(0, i as int)),
                rejected == rejections(start, events@.subrange(0, i as int)),
                rejected <= i,
                self.listeners().len() == old(self).listeners().len(),
                forall|k: int|
                    0 <= k < old(self).listeners().len() ==> (#[trigger] self.listeners()[k])
                        .received() == old(self).listeners()[k].received() + changes(
                        start,
                        events@.subrange(0, i as int),
                    ),
            decreases events@.len() - i,
        {
            let event = events[i];
            let ghost before = events@.subrange(0, i as int);
            let ghost through = events@.subrange(0, i + 1);
            let ghost listeners_before = self.listeners();
            proof {
                assert(through.drop_last() =~= before);
                assert(through.last() == event);
            }
            match self.handle(event) {
                Handled::Dispatched { change, answers: _ } => {
                    accepted.push(change);
                    proof {
                        assert forall|k: int| 0 <= k < old(self).listeners().len() implies (
                        #[trigger] self.listeners()[k]).received() == old(self).listeners()[k].received() + changes(start, through) by {
                            assert(self.listeners()[k].received()
                                == listeners_before[k].received().push(change));
                            assert((old(self).listeners()[k].received() + changes(
                                start,
                                before,
                            )).push(change) =~= old(self).listeners()[k].received() + changes(
                                start,
                                before,
                            ).push(change));
                        }
                    }
                },
                Handled::Unchanged => {},
                Handled::Rejected(_) => {
                    rejected = rejected + 1;
                },
            }
            i += 1;
        }
        assert(events@.subrange(0, i as int) =~= events@);
        RunReport { changes: accepted, rejected }
    }

    /// An independent copy of every record, in the order of the state.
    pub fn snapshot(&self) -> (copy: Vec<DeviceRecord>)
        requires
            self.wf(),
        ensures
            copy@ == self.records(),
            distinct_ids(copy@),
            table_of(copy@) == self.devices(),
            copy@.len() == self.devices().dom().len(),
    {
        self.state.snapshot()
    }

    /// Takes the orchestrator apart.
    pub fn into_parts(self) -> (parts: (GatewayState, Dispatcher<L>))
        requires
            self.wf(),
        ensures
            parts.0.wf(),
            parts.0.records() == self.records(),
            parts.0@ == self.devices(),
            parts.1.listeners() == self.listeners(),
    {
        (self.state, self.dispatcher)
    }
}

} // verus!
