//! The authoritative device table and its single mutation path.
//!
//! A [`StateStore`] is modelled as a finite map from device id to the last
//! reading observed for that device, and, for the order in which the records
//! are handed out, as the sequence of its records. Every change to the table
//! goes through [`StateStore::apply`], whose effect is given by the spec
//! functions [`next_state`], [`next_records`] and [`outcome`].

use vstd::prelude::*;

verus! {

/// Identifies one device. Ids are unique within a store.
pub type DeviceId = u32;

/// One measured value, kept as the bit pattern of an IEEE-754 double.
///
/// The engine never computes with readings: it stores them, hands them on and
/// tells two of them apart by their bits.
#[derive(Debug, Clone, Copy, PartialEq, Eq)]
pub struct Reading {
    pub bits: u64,
}

impl Reading {
    /// Wraps a bit pattern.
    pub fn from_bits(bits: u64) -> (r: Reading)
        ensures
            r.bits == bits,
    {
        Reading { bits }
    }

    /// The wrapped bit pattern.
    pub fn to_bits(&self) -> (b: u64)
        ensures
            b == self.bits,
    {
        self.bits
    }
}

/// A device as the store holds it: known, and perhaps with a reading.
#[derive(Debug, Clone, Copy, PartialEq, Eq)]
pub struct DeviceRecord {
    pub id: DeviceId,
    pub value: Option<Reading>,
}

/// An event: an incoming fact about a device.
#[derive(Debug, Clone, Copy, PartialEq, Eq)]
pub enum GatewayEvent {
    DeviceCreated { id: DeviceId },
    ValueObserved { id: DeviceId, value: Option<Reading> },
    DeviceRemoved { id: DeviceId },
}

/// A mutation that the store accepted.
#[derive(Debug, Clone, Copy, PartialEq, Eq)]
pub enum StateChange {
    Created { id: DeviceId },
    Updated { id: DeviceId, value: Option<Reading> },
    Removed { id: DeviceId },
}

/// The rejection of an event that names a device the store does not know.
#[derive(Debug, Clone, Copy, PartialEq, Eq)]
pub struct NotFound {
    pub id: DeviceId,
}

/// The mathematical content of a store.
pub type Devices = Map<DeviceId, Option<Reading>>;

impl GatewayEvent {
    /// The device that the event speaks of.
    pub open spec fn subject(self) -> DeviceId {
        match self {
            GatewayEvent::DeviceCreated { id } => id,
            GatewayEvent::ValueObserved { id, .. } => id,
            GatewayEvent::DeviceRemoved { id } => id,
        }
    }

    /// The device that the event speaks of.
    pub fn device(&self) -> (id: DeviceId)
        ensures
            id == self.subject(),
    {
        match self {
            GatewayEvent::DeviceCreated { id } => *id,
            GatewayEvent::ValueObserved { id, .. } => *id,
            GatewayEvent::DeviceRemoved { id } => *id,
        }
    }
}

/// The table after `event`, given the table before it.
pub open spec fn next_state(devices: Devices, event: GatewayEvent) -> Devices {
    match event {
        GatewayEvent::DeviceCreated { id } => if devices.contains_key(id) {
            devices
        } else {
            devices.insert(id, None)
        },
        GatewayEvent::ValueObserved { id, value } => if devices.contains_key(id) {
            devices.insert(id, value)
        } else {
            devices
        },
        GatewayEvent::DeviceRemoved { id } => devices.remove(id),
    }
}

/// What applying `event` to the table `devices` reports.
///
/// An event that leaves the table as it was reports no change: creating a
/// known device, or observing the reading a device already has.
pub open spec fn outcome(devices: Devices, event: GatewayEvent) -> Result<Option<StateChange>, NotFound> {
    match event {
        GatewayEvent::DeviceCreated { id } => if devices.contains_key(id) {
            Ok(None)
        } else {
            Ok(Some(StateChange::Created { id }))
        },
        GatewayEvent::ValueObserved { id, value } => if !devices.contains_key(id) {
            Err(NotFound { id })
        } else if devices[id] == value {
            Ok(None)
        } else {
            Ok(Some(StateChange::Updated { id, value }))
        },
        GatewayEvent::DeviceRemoved { id } => if devices.contains_key(id) {
            Ok(Some(StateChange::Removed { id }))
        } else {
            Err(NotFound { id })
        },
    }
}

/// The table after a whole sequence of events, applied from left to right.
pub open spec fn replay(devices: Devices, events: Seq<GatewayEvent>) -> Devices
    decreases events.len(),
{
    if events.len() == 0 {
        devices
    } else {
        next_state(replay(devices, events.drop_last()), events.last())
    }
}

/// The changes that a sequence of events reports, in the order of the events
/// that caused them. Rejected events and events without effect report none.
pub open spec fn changes(devices: Devices, events: Seq<GatewayEvent>) -> Seq<StateChange>
    decreases events.len(),
{
    if events.len() == 0 {
        Seq::empty()
    } else {
        let earlier = changes(devices, events.drop_last());
        match outcome(replay(devices, events.drop_last()), events.last()) {
            Ok(Some(change)) => earlier.push(change),
            _ => earlier,
        }
    }
}

/// The number of events in a sequence that are rejected.
pub open spec fn rejections(devices: Devices, events: Seq<GatewayEvent>) -> nat
    decreases events.len(),
{
    if events.len() == 0 {
        0
    } else {
        let earlier = rejections(devices, events.drop_last());
        if outcome(replay(devices, events.drop_last()), events.last()) is Err {
            earlier + 1
        } else {
            earlier
        }
    }
}

/// A change is reported exactly when the table changes: an event that reports
/// none, or is rejected, leaves the table as it was, and a reported change
/// never does.
pub proof fn lemma_change_iff_table_changes(devices: Devices, event: GatewayEvent)
    ensures
        outcome(devices, event) matches Ok(Some(_)) <==> next_state(devices, event) != devices,
{
    let after = next_state(devices, event);
    match event {
        GatewayEvent::DeviceCreated { id } => {
            if !devices.contains_key(id) {
                assert(after.contains_key(id));
            }
        },
        GatewayEvent::ValueObserved { id, value } => {
            if devices.contains_key(id) {
                if devices[id] == value {
                    assert(after =~= devices);
                } else {
                    assert(after[id] == value);
                }
            }
        },
        GatewayEvent::DeviceRemoved { id } => {
            if devices.contains_key(id) {
                assert(!after.contains_key(id));
            } else {
                assert(after =~= devices);
            }
        },
    }
}

/// Observing the same reading twice is the same as observing it once: the
/// second observation changes nothing and reports no change.
pub proof fn lemma_observation_is_idempotent(
    devices: Devices,
    id: DeviceId,
    value: Option<Reading>,
)
    ensures
        ({
            let event = GatewayEvent::ValueObserved { id, value };
            let once = next_state(devices, event);
            &&& next_state(once, event) == once
            &&& devices.contains_key(id) ==> once[id] == value && outcome(once, event) == Ok::<
                Option<StateChange>,
                NotFound,
            >(None)
        }),
{
    let event = GatewayEvent::ValueObserved { id, value };
    let once = next_state(devices, event);
    assert(next_state(once, event) =~= once);
}

/// An observation or a removal that names an unknown device is rejected with
/// `NotFound`, reports no change and leaves the table as it was.
pub proof fn lemma_unknown_device_is_rejected(devices: Devices, event: GatewayEvent)
    requires
        !devices.contains_key(event.subject()),
        !(event is DeviceCreated),
    ensures
        outcome(devices, event) == Err::<Option<StateChange>, NotFound>(
            NotFound { id: event.subject() },
        ),
        next_state(devices, event) == devices,
{
    assert(next_state(devices, event) =~= devices);
}

/// Creating a device twice in a row reports `Created` for the first event,
/// if the device was unknown, and nothing for the second, which leaves the
/// table as the first left it.
pub proof fn lemma_duplicate_creation_is_silent(devices: Devices, id: DeviceId)
    ensures
        ({
            let event = GatewayEvent::DeviceCreated { id };
            let once = next_state(devices, event);
            &&& !devices.contains_key(id) ==> outcome(devices, event) == Ok::<
                Option<StateChange>,
                NotFound,
            >(Some(StateChange::Created { id }))
            &&& outcome(once, event) == Ok::<Option<StateChange>, NotFound>(None)
            &&& next_state(once, event) == once
            &&& changes(devices, seq![event, event]) == if devices.contains_key(id) {
                Seq::<StateChange>::empty()
            } else {
                seq![StateChange::Created { id }]
            }
        }),
{
    let event = GatewayEvent::DeviceCreated { id };
    let both = seq![event, event];
    let first = both.drop_last();
    assert(first.drop_last() =~= Seq::<GatewayEvent>::empty());
    assert(first.last() == event);
    assert(both.last() == event);
    assert(replay(devices, first.drop_last()) == devices);
    assert(replay(devices, first) == next_state(devices, event));
    assert(changes(devices, first.drop_last()) == Seq::<StateChange>::empty());
    if devices.contains_key(id) {
        assert(changes(devices, first) =~= Seq::<StateChange>::empty());
        assert(changes(devices, both) =~= Seq::<StateChange>::empty());
    } else {
        assert(changes(devices, first) =~= seq![StateChange::Created { id }]);
        assert(changes(devices, both) =~= seq![StateChange::Created { id }]);
    }
}

/// Replaying two sequences of events one after the other is replaying their
/// concatenation.
pub proof fn lemma_replay_concat(devices: Devices, first: Seq<GatewayEvent>, second: Seq<GatewayEvent>)
    ensures
        replay(devices, first + second) == replay(replay(devices, first), second),
        changes(devices, first + second) == changes(devices, first) + changes(
            replay(devices, first),
            second,
        ),
    decreases second.len(),
{
    if second.len() == 0 {
        assert(first + second =~= first);
        assert(changes(devices, first) + Seq::<StateChange>::empty() =~= changes(devices, first));
    } else {
        let shorter = second.drop_last();
        assert((first + second).drop_last() =~= first + shorter);
        assert((first + second).last() == second.last());
        lemma_replay_concat(devices, first, shorter);
        let middle = replay(devices, first);
        match outcome(replay(middle, shorter), second.last()) {
            Ok(Some(change)) => {
                assert((changes(devices, first) + changes(middle, shorter)).push(change)
                    =~= changes(devices, first) + changes(middle, shorter).push(change));
            },
            _ => {},
        }
    }
}

/// The table that a sequence of records stands for: later records win.
pub open spec fn table_of(records: Seq<DeviceRecord>) -> Devices
    decreases records.len(),
{
    if records.len() == 0 {
        Map::empty()
    } else {
        table_of(records.drop_last()).insert(records.last().id, records.last().value)
    }
}

/// No two records carry the same id.
pub open spec fn distinct_ids(records: Seq<DeviceRecord>) -> bool {
    forall|i: int, j: int|
        0 <= i < j < records.len() ==> (#[trigger] records[i]).id != (#[trigger] records[j]).id
}

/// Some record carries `id`.
pub open spec fn mentions(records: Seq<DeviceRecord>, id: DeviceId) -> bool {
    exists|i: int| 0 <= i < records.len() && (#[trigger] records[i]).id == id
}

/// The domain of `table_of(records)` is the set of ids that the records carry.
pub proof fn lemma_table_domain(records: Seq<DeviceRecord>, id: DeviceId)
    ensures
        table_of(records).contains_key(id) <==> mentions(records, id),
    decreases records.len(),
{
    if records.len() > 0 {
        let front = records.drop_last();
        lemma_table_domain(front, id);
        if mentions(front, id) {
            let i = choose|i: int| 0 <= i < front.len() && (#[trigger] front[i]).id == id;
            assert(records[i].id == id);
        }
        if mentions(records, id) {
            let i = choose|i: int| 0 <= i < records.len() && (#[trigger] records[i]).id == id;
            if i < front.len() {
                assert(front[i].id == id);
            }
        }
    }
}

/// With distinct ids, each record's reading is what the table holds for its id.
pub proof fn lemma_table_lookup(records: Seq<DeviceRecord>, i: int)
    requires
        distinct_ids(records),
        0 <= i < records.len(),
    ensures
        table_of(records).contains_key(records[i].id),
        table_of(records)[records[i].id] == records[i].value,
    decreases records.len(),
{
    let front = records.drop_last();
    if i < records.len() - 1 {
        assert(front[i] == records[i]);
        assert(distinct_ids(front)) by {
            assert forall|a: int, b: int| 0 <= a < b < front.len() implies (#[trigger] front[a]).id
                != (#[trigger] front[b]).id by {
                assert(front[a] == records[a]);
                assert(front[b] == records[b]);
            }
        }
        lemma_table_lookup(front, i);
        assert(records[i].id != records[records.len() - 1].id);
    }
}

/// A table has as many entries as a sequence of records with distinct ids that
/// stands for it.
pub proof fn lemma_table_size(records: Seq<DeviceRecord>)
    requires
        distinct_ids(records),
    ensures
        table_of(records).dom().finite(),
        table_of(records).dom().len() == records.len(),
    decreases records.len(),
{
    if records.len() > 0 {
        let front = records.drop_last();
        assert(distinct_ids(front)) by {
            assert forall|a: int, b: int| 0 <= a < b < front.len() implies (#[trigger] front[a]).id
                != (#[trigger] front[b]).id by {
                assert(front[a] == records[a]);
                assert(front[b] == records[b]);
            }
        }
        lemma_table_size(front);
        lemma_table_domain(front, records.last().id);
        if mentions(front, records.last().id) {
            let i = choose|i: int|
                0 <= i < front.len() && (#[trigger] front[i]).id == records.last().id;
            assert(records[i].id == records[records.len() - 1].id);
        }
    }
}

/// The position of the first record that carries `id`, or the number of
/// records where none does.
pub open spec fn position(records: Seq<DeviceRecord>, id: DeviceId) -> int
    decreases records.len(),
{
    if records.len() == 0 {
        0
    } else if records[0].id == id {
        0
    } else {
        1 + position(records.drop_first(), id)
    }
}

/// The records after `event`, given the records before it.
///
/// A created device is added at the end, an observed reading takes the place
/// of the old one, and a removed device leaves its place; every other record
/// stays where it is. An event that is rejected, or creates a known device,
/// changes nothing.
pub open spec fn next_records(records: Seq<DeviceRecord>, event: GatewayEvent) -> Seq<
    DeviceRecord,
> {
    let at = position(records, event.subject());
    match event {
        GatewayEvent::DeviceCreated { id } => if at < records.len() {
            records
        } else {
            records.push(DeviceRecord { id, value: None })
        },
        GatewayEvent::ValueObserved { id, value } => if at < records.len() {
            records.update(at, DeviceRecord { id, value })
        } else {
            records
        },
        GatewayEvent::DeviceRemoved { id } => if at < records.len() {
            records.remove(at)
        } else {
            records
        },
    }
}

/// `position` finds a record with `id` exactly where there is one, and the
/// first such record.
pub proof fn lemma_position(records: Seq<DeviceRecord>, id: DeviceId)
    ensures
        0 <= position(records, id) <= records.len(),
        position(records, id) < records.len() ==> records[position(records, id)].id == id,
        forall|i: int| 0 <= i < position(records, id) ==> (#[trigger] records[i]).id != id,
        position(records, id) < records.len() <==> mentions(records, id),
    decreases records.len(),
{
    if records.len() > 0 && records[0].id != id {
        let rest = records.drop_first();
        lemma_position(rest, id);
        assert forall|i: int| 0 <= i < position(records, id) implies (#[trigger] records[i]).id
            != id by {
            if i > 0 {
                assert(records[i] == rest[i - 1]);
            }
        }
        if mentions(records, id) {
            let k = choose|k: int| 0 <= k < records.len() && (#[trigger] records[k]).id == id;
            assert(rest[k - 1] == records[k]);
            assert(mentions(rest, id));
        }
        if mentions(rest, id) {
            let k = choose|k: int| 0 <= k < rest.len() && (#[trigger] rest[k]).id == id;
            assert(records[k + 1] == rest[k]);
        }
    } else if records.len() > 0 {
        assert(records[0].id == id);
    }
}

/// With distinct ids, the position of the id of a record is the place of
/// that record.
pub proof fn lemma_position_of_record(records: Seq<DeviceRecord>, k: int)
    requires
        distinct_ids(records),
        0 <= k < records.len(),
    ensures
        position(records, records[k].id) == k,
{
    let id = records[k].id;
    lemma_position(records, id);
    let at = position(records, id);
    if at < k {
        assert(records[at].id != records[k].id);
    }
}

/// The records follow the table: with distinct ids before an event, the ids
/// are distinct after it, and the records after it stand for the table after
/// it.
pub proof fn lemma_records_follow_table(records: Seq<DeviceRecord>, event: GatewayEvent)
    requires
        distinct_ids(records),
    ensures
        distinct_ids(next_records(records, event)),
        table_of(next_records(records, event)) == next_state(table_of(records), event),
{
    let id = event.subject();
    let at = position(records, id);
    lemma_position(records, id);
    lemma_table_domain(records, id);
    match event {
        GatewayEvent::DeviceCreated { id } => {
            if at >= records.len() {
                lemma_push_fresh(records, DeviceRecord { id, value: None });
            }
        },
        GatewayEvent::ValueObserved { id, value } => {
            if at < records.len() {
                lemma_update_in_place(records, at, DeviceRecord { id, value });
            }
        },
        GatewayEvent::DeviceRemoved { id } => {
            if at < records.len() {
                lemma_remove_at(records, at);
            } else {
                assert(table_of(records).remove(id) =~= table_of(records));
            }
        },
    }
}

/// The authoritative device table.
#[derive(Debug)]
pub struct StateStore {
    records: Vec<DeviceRecord>,
}

impl View for StateStore {
    type V = Devices;

    open spec fn view(&self) -> Devices {
        table_of(self.records())
    }
}

impl StateStore {
    /// The records of the store, in the order in which their devices were
    /// created.
    pub closed spec fn records(&self) -> Seq<DeviceRecord> {
        self.records@
    }

    /// The invariant of a store: no device is recorded twice.
    pub open spec fn wf(&self) -> bool {
        distinct_ids(self.records())
    }

    /// An empty store.
    pub fn new() -> (store: StateStore)
        ensures
            store.wf(),
            store.records() == Seq::<DeviceRecord>::empty(),
            store@ == Map::<DeviceId, Option<Reading>>::empty(),
    {
        StateStore { records: Vec::new() }
    }

    /// The position of the record with `id`, if the store knows the device.
    fn find(&self, id: DeviceId) -> (found: Option<usize>)
        ensures
            found is Some <==> self@.contains_key(id),
            found is Some <==> position(self.records@, id) < self.records@.len(),
            found matches Some(i) ==> i == position(self.records@, id) && self.records@[i as int].id
                == id,
    {
        let mut i: usize = 0;
        while i < self.records.len()
            invariant
                i <= self.records@.len(),
                forall|k: int| 0 <= k < i ==> (#[trigger] self.records@[k]).id != id,
            decreases self.records@.len() - i,
        {
            if self.records[i].id == id {
                proof {
                    lemma_table_domain(self.records@, id);
                    lemma_position(self.records@, id);
                }
                return Some(i);
            }
            i += 1;
        }
        proof {
            lemma_table_domain(self.records@, id);
            lemma_position(self.records@, id);
        }
        None
    }

    /// Whether the store knows the device `id`.
    pub fn contains(&self, id: DeviceId) -> (known: bool)
        ensures
            known == self@.contains_key(id),
    {
        self.find(id).is_some()
    }

    /// The record of the device `id`, if the store knows it.
    pub fn get(&self, id: DeviceId) -> (record: Option<DeviceRecord>)
        requires
            self.wf(),
        ensures
            record is Some <==> self@.contains_key(id),
            record matches Some(r) ==> r.id == id && r.value == self@[id] && r == self.records()[position(
                self.records(),
                id,
            )],
    {
        match self.find(id) {
            Some(i) => {
                proof {
                    lemma_table_lookup(self.records@, i as int);
                }
                Some(self.records[i])
            },
            None => None,
        }
    }

    /// The number of devices that the store knows.
    pub fn len(&self) -> (n: usize)
        requires
            self.wf(),
        ensures
            self@.dom().finite(),
            n == self@.dom().len(),
            n == self.records().len(),
    {
        proof {
            lemma_table_size(self.records@);
        }
        self.records.len()
    }

    /// Applies one event: the only way to change the store.
    ///
    /// The table moves to `next_state`, the records to `next_records`, and the
    /// call reports `outcome`; in particular an event that is rejected, or
    /// that changes nothing, leaves every record as it was.
    pub fn apply(&mut self, event: GatewayEvent) -> (result: Result<Option<StateChange>, NotFound>)
        requires
            old(self).wf(),
        ensures
            final(self).wf(),
            final(self)@ == next_state(old(self)@, event),
            final(self).records() == next_records(old(self).records(), event),
            result == outcome(old(self)@, event),
            (result is Err || result == Ok::<Option<StateChange>, NotFound>(None)) ==> *final(self)
                == *old(self),
    {
        let ghost before = self.records@;
        let found = self.find(event.device());
        match event {
            GatewayEvent::DeviceCreated { id } => match found {
                Some(_) => Ok(None),
                None => {
                    let record = DeviceRecord { id, value: None };
                    proof {
                        lemma_push_fresh(before, record);
                    }
                    self.records.push(record);
                    Ok(Some(StateChange::Created { id }))
                },
            },
            GatewayEvent::ValueObserved { id, value } => match found {
                None => {
                    assert(next_state(self@, event) == self@);
                    Err(NotFound { id })
                },
                Some(i) => {
                    proof {
                        lemma_table_lookup(before, i as int);
                    }
                    if same_reading(self.records[i].value, value) {
                        assert(self@.insert(id, value) =~= self@);
                        assert(before.update(i as int, DeviceRecord { id, value }) =~= before);
                        Ok(None)
                    } else {
                        let record = DeviceRecord { id, value };
                        proof {
                            lemma_update_in_place(before, i as int, record);
                        }
                        self.records.set(i, record);
                        Ok(Some(StateChange::Updated { id, value }))
                    }
                },
            },
            GatewayEvent::DeviceRemoved { id } => match found {
                None => {
                    assert(self@.remove(id) =~= self@);
                    Err(NotFound { id })
                },
                Some(i) => {
                    proof {
                        lemma_remove_at(before, i as int);
                    }
                    self.records.remove(i);
                    Ok(Some(StateChange::Removed { id }))
                },
            },
        }
    }

    /// An independent copy of every record, in the order of the store.
    ///
    /// Each known device appears exactly once, with the reading the table
    /// holds for it.
    pub fn snapshot(&self) -> (copy: Vec<DeviceRecord>)
        requires
            self.wf(),
        ensures
            copy@ == self.records(),
            distinct_ids(copy@),
            table_of(copy@) == self@,
            self@.dom().finite(),
            copy@.len() == self@.dom().len(),
    {
        proof {
            lemma_table_size(self.records@);
        }
        let mut copy: Vec<DeviceRecord> = Vec::new();
        let mut i: usize = 0;
        while i < self.records.len()
            invariant
                i <= self.records@.len(),
                copy@ == self.records@.subrange(0, i as int),
            decreases self.records@.len() - i,
        {
            copy.push(self.records[i]);
            assert(copy@ =~= self.records@.subrange(0, i + 1));
            i += 1;
        }
        assert(copy@ =~= self.records@);
        copy
    }
}

/// Whether two optional readings are the same, bit for bit.
pub fn same_reading(a: Option<Reading>, b: Option<Reading>) -> (same: bool)
    ensures
        same == (a == b),
{
    match (a, b) {
        (None, None) => true,
        (Some(x), Some(y)) => x.bits == y.bits,
        _ => false,
    }
}

proof fn lemma_push_fresh(records: Seq<DeviceRecord>, record: DeviceRecord)
    requires
        distinct_ids(records),
        !table_of(records).contains_key(record.id),
    ensures
        distinct_ids(records.push(record)),
        table_of(records.push(record)) == table_of(records).insert(record.id, record.value),
{
    let longer = records.push(record);
    assert(longer.drop_last() =~= records);
    assert forall|i: int, j: int| 0 <= i < j < longer.len() implies (#[trigger] longer[i]).id != (
    #[trigger] longer[j]).id by {
        if j == records.len() {
            lemma_table_domain(records, record.id);
            assert(records[i].id != record.id);
        } else {
            assert(longer[i] == records[i]);
            assert(longer[j] == records[j]);
        }
    }
}

proof fn lemma_update_in_place(records: Seq<DeviceRecord>, i: int, record: DeviceRecord)
    requires
        distinct_ids(records),
        0 <= i < records.len(),
        records[i].id == record.id,
    ensures
        distinct_ids(records.update(i, record)),
        table_of(records.update(i, record)) == table_of(records).insert(record.id, record.value),
{
    let changed = records.update(i, record);
    assert forall|a: int, b: int| 0 <= a < b < changed.len() implies (#[trigger] changed[a]).id != (
    #[trigger] changed[b]).id by {
        assert(changed[a].id == records[a].id);
        assert(changed[b].id == records[b].id);
    }
    let want = table_of(records).insert(record.id, record.value);
    assert forall|id: DeviceId| table_of(changed).contains_key(id) <==> want.contains_key(id) by {
        lemma_table_domain(changed, id);
        lemma_table_domain(records, id);
        if mentions(changed, id) {
            let k = choose|k: int| 0 <= k < changed.len() && (#[trigger] changed[k]).id == id;
            assert(records[k].id == id);
        }
        if mentions(records, id) {
            let k = choose|k: int| 0 <= k < records.len() && (#[trigger] records[k]).id == id;
            assert(changed[k].id == id);
        }
        if id == record.id {
            assert(changed[i].id == id);
        }
    }
    assert forall|id: DeviceId| table_of(changed).contains_key(id) implies table_of(changed)[id]
        == want[id] by {
        lemma_table_domain(changed, id);
        let k = choose|k: int| 0 <= k < changed.len() && (#[trigger] changed[k]).id == id;
        lemma_table_lookup(changed, k);
        if k != i {
            assert(changed[k] == records[k]);
            lemma_table_lookup(records, k);
            assert(records[k].id != records[i].id);
        }
    }
    assert(table_of(changed) =~= want);
}

proof fn lemma_remove_at(records: Seq<DeviceRecord>, i: int)
    requires
        distinct_ids(records),
        0 <= i < records.len(),
    ensures
        distinct_ids(records.remove(i)),
        table_of(records.remove(i)) == table_of(records).remove(records[i].id),
{
    let rest = records.remove(i);
    let gone = records[i].id;
    assert forall|a: int, b: int| 0 <= a < b < rest.len() implies (#[trigger] rest[a]).id != (
    #[trigger] rest[b]).id by {
        let a0 = if a < i { a } else { a + 1 };
        let b0 = if b < i { b } else { b + 1 };
        assert(rest[a] == records[a0]);
        assert(rest[b] == records[b0]);
    }
    let want = table_of(records).remove(gone);
    assert forall|id: DeviceId| table_of(rest).contains_key(id) <==> want.contains_key(id) by {
        lemma_table_domain(rest, id);
        lemma_table_domain(records, id);
        if mentions(rest, id) {
            let k = choose|k: int| 0 <= k < rest.len() && (#[trigger] rest[k]).id == id;
            let k0 = if k < i { k } else { k + 1 };
            assert(rest[k] == records[k0]);
            assert(records[k0].id == id);
            assert(k0 != i);
            if k0 < i {
                assert(records[k0].id != records[i].id);
            } else {
                assert(records[i].id != records[k0].id);
            }
        }
        if mentions(records, id) && id != gone {
            let k = choose|k: int| 0 <= k < records.len() && (#[trigger] records[k]).id == id;
            let k1 = if k < i { k } else { k - 1 };
            assert(rest[k1] == records[k]);
            assert(rest[k1].id == id);
        }
    }
    assert forall|id: DeviceId| table_of(rest).contains_key(id) implies table_of(rest)[id]
        == want[id] by {
        lemma_table_domain(rest, id);
        let k = choose|k: int| 0 <= k < rest.len() && (#[trigger] rest[k]).id == id;
        let k0 = if k < i { k } else { k + 1 };
        assert(rest[k] == records[k0]);
        lemma_table_lookup(rest, k);
        lemma_table_lookup(records, k0);
    }
    assert(table_of(rest) =~= want);
}

} // verus!
