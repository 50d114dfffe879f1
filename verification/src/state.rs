//! The state of the gateway: the device table behind the one entry point
//! that may change it.
//!
//! A [`GatewayState`] holds the [`StateStore`]. Whoever owns the state
//! applies events to it through [`GatewayState::apply_event`] and reads it
//! through [`GatewayState::snapshot`]; nothing hands out a reference into the
//! table.

use crate::store::{
    distinct_ids, next_records, next_state, outcome, table_of, DeviceId, DeviceRecord, Devices,
    GatewayEvent, NotFound, Reading, StateChange, StateStore,
};
use vstd::prelude::*;

verus! {

/// The state of the gateway.
#[derive(Debug)]
pub struct GatewayState {
    store: StateStore,
}

impl View for GatewayState {
    type V = Devices;

    open spec fn view(&self) -> Devices {
        table_of(self.records())
    }
}

impl Default for GatewayState {
    /// A state without devices.
    fn default() -> (state: Self)
        ensures
            state.wf(),
            state.records() == Seq::<DeviceRecord>::empty(),
    {
        GatewayState::new()
    }
}

impl GatewayState {
    /// The records of the devices, in the order in which the devices were
    /// created.
    pub closed spec fn records(&self) -> Seq<DeviceRecord> {
        self.store.records()
    }

    /// The invariant of the state: no device is recorded twice.
    pub open spec fn wf(&self) -> bool {
        distinct_ids(self.records())
    }

    /// A state without devices.
    pub fn new() -> (state: Self)
        ensures
            state.wf(),
            state.records() == Seq::<DeviceRecord>::empty(),
            state@ == Map::<DeviceId, Option<Reading>>::empty(),
    {
        Self { store: StateStore::new() }
    }

    /// Applies one event: the only way to change the state.
    ///
    /// A creation makes an unknown device known, without a reading, and
    /// reports `Created`; for a known device it changes and reports nothing.
    /// An observation gives a known device its reading and reports `Updated`,
    /// unless the device has that reading already. A removal forgets a known
    /// device and reports `Removed`. An observation or a removal of an unknown
    /// device is rejected with `NotFound`. Whatever reports no change leaves
    /// the state as it was.
    pub fn apply_event(&mut self, ev: GatewayEvent) -> (result: Result<
        Option<StateChange>,
        NotFound,
    >)
        requires
            old(self).wf(),
        ensures
            final(self).wf(),
            final(self)@ == next_state(old(self)@, ev),
            final(self).records() == next_records(old(self).records(), ev),
            result == outcome(old(self)@, ev),
            (result is Err || result == Ok::<Option<StateChange>, NotFound>(None)) ==> *final(self)
                == *old(self),
    {
        self.store.apply(ev)
    }

    /// An independent copy of every record, in the order of the state.
    pub fn snapshot(&self) -> (copy: Vec<DeviceRecord>)
        requires
            self.wf(),
        ensures
            copy@ == self.records(),
            distinct_ids(copy@),
            table_of(copy@) == self@,
            self@.dom().finite(),
            copy@.len() == self@.dom().len(),
    {
        self.store.snapshot()
    }

    /// Whether the state knows the device `id`.
    pub fn contains(&self, id: DeviceId) -> (known: bool)
        ensures
            known == self@.contains_key(id),
    {
        self.store.contains(id)
    }
}

} // verus!
