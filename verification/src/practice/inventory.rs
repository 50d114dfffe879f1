//! A plain list of devices with integer values. An update sets the value of
//! a device and adds the device where the list does not hold it; a removal
//! forgets a device; a tick shifts every value.
//!
//! The list is no state of the gateway, for which see [`crate::state`]: it
//! reports nothing and rejects nothing.

use crate::device::Device;
use crate::text::{append_u64, decimal};
use vstd::prelude::*;
use vstd::string::StringExecFns;

verus! {

/// What can happen to the list.
#[derive(Debug, Clone, Copy, PartialEq, Eq)]
pub enum Event {
    /// Set the value of a device, creating the device if need be.
    Update { id: u32, value: i32 },
    /// Forget every device with this id.
    Remove(u32),
    /// Add this amount to the value of every device.
    Tick(i32),
}

/// The devices, in the order in which they were first updated.
#[derive(Debug, Default)]
pub struct Inventory {
    pub devices: Vec<Device>,
}

/// The position of the first device with `id`, or the length of the
/// sequence where there is none.
pub open spec fn first_with(devices: Seq<Device>, id: u32) -> int
    decreases devices.len(),
{
    if devices.len() == 0 {
        0
    } else if devices[0].id == id {
        0
    } else {
        1 + first_with(devices.drop_first(), id)
    }
}

/// The devices after the value of `id` is set: the first device with that
/// id takes the value, and where there is none a new device is added at the
/// end.
pub open spec fn updated(devices: Seq<Device>, id: u32, value: i32) -> Seq<Device> {
    let at = first_with(devices, id);
    if at < devices.len() {
        devices.update(at, Device { id, value })
    } else {
        devices.push(Device { id, value })
    }
}

/// The devices without those that carry `id`.
pub open spec fn removed(devices: Seq<Device>, id: u32) -> Seq<Device> {
    devices.filter(|d: Device| d.id != id)
}

/// Whether every value can take `amount` more without leaving `i32`.
pub open spec fn can_shift(devices: Seq<Device>, amount: i32) -> bool {
    forall|i: int|
        0 <= i < devices.len() ==> i32::MIN <= (#[trigger] devices[i]).value + amount <= i32::MAX
}

/// The devices with `amount` added to every value.
pub open spec fn shifted(devices: Seq<Device>, amount: i32) -> Seq<Device> {
    Seq::new(
        devices.len(),
        |i: int| Device { id: devices[i].id, value: (devices[i].value + amount) as i32 },
    )
}

/// The devices after `event`.
pub open spec fn applied(devices: Seq<Device>, event: Event) -> Seq<Device> {
    match event {
        Event::Update { id, value } => updated(devices, id, value),
        Event::Remove(id) => removed(devices, id),
        Event::Tick(amount) => shifted(devices, amount),
    }
}

/// `first_with` finds a device with `id` where there is one, and the first
/// such device.
pub proof fn lemma_first_with(devices: Seq<Device>, id: u32)
    ensures
        0 <= first_with(devices, id) <= devices.len(),
        first_with(devices, id) < devices.len() ==> devices[first_with(devices, id)].id == id,
        forall|i: int| 0 <= i < first_with(devices, id) ==> (#[trigger] devices[i]).id != id,
    decreases devices.len(),
{
    if devices.len() > 0 && devices[0].id != id {
        let rest = devices.drop_first();
        lemma_first_with(rest, id);
        assert forall|i: int| 0 <= i < first_with(devices, id) implies (#[trigger] devices[i]).id
            != id by {
            if i > 0 {
                assert(devices[i] == rest[i - 1]);
            }
        }
    }
}

/// The first device with `id`, if there is one.
pub fn find_device(state: &Inventory, id: u32) -> (found: Option<&Device>)
    ensures
        found is Some <==> first_with(state.devices@, id) < state.devices@.len(),
        found matches Some(d) ==> *d == state.devices@[first_with(state.devices@, id)],
{
    match position_of(state, id) {
        Some(i) => Some(&state.devices[i]),
        None => None,
    }
}

/// The position of the first device with `id`, if there is one.
pub fn position_of(state: &Inventory, id: u32) -> (found: Option<usize>)
    ensures
        found is Some <==> first_with(state.devices@, id) < state.devices@.len(),
        found matches Some(i) ==> i == first_with(state.devices@, id),
{
    let mut i: usize = 0;
    while i < state.devices.len()
        invariant
            i <= state.devices@.len(),
            forall|k: int| 0 <= k < i ==> (#[trigger] state.devices@[k]).id != id,
        decreases state.devices@.len() - i,
    {
        if state.devices[i].id == id {
            proof {
                lemma_first_with(state.devices@, id);
            }
            return Some(i);
        }
        i += 1;
    }
    proof {
        lemma_first_with(state.devices@, id);
    }
    None
}

/// Sets the value of the first device with `id`. Returns whether there is
/// such a device; where there is none, nothing changes.
pub fn update_device(state: &mut Inventory, id: u32, new_value: i32) -> (found: bool)
    ensures
        found == (first_with(old(state).devices@, id) < old(state).devices@.len()),
        found ==> final(state).devices@ == updated(old(state).devices@, id, new_value),
        !found ==> final(state).devices@ == old(state).devices@,
{
    match position_of(state, id) {
        Some(i) => {
            state.devices.set(i, Device { id, value: new_value });
            true
        },
        None => false,
    }
}

/// Forgets every device with `id`; the others keep their order.
pub fn remove_device(state: &mut Inventory, id: u32)
    ensures
        final(state).devices@ == removed(old(state).devices@, id),
{
    let ghost keep = |d: Device| d.id != id;
    let mut kept: Vec<Device> = Vec::new();
    let mut i: usize = 0;
    assert(state.devices@.subrange(0, 0).filter(keep) =~= Seq::<Device>::empty()) by {
        reveal(Seq::filter);
    }
    while i < state.devices.len()
        invariant
            i <= state.devices@.len(),
            state.devices@ == old(state).devices@,
            keep == (|d: Device| d.id != id),
            kept@ == state.devices@.subrange(0, i as int).filter(keep),
        decreases state.devices@.len() - i,
    {
        let device = state.devices[i];
        proof {
            let through = state.devices@.subrange(0, i + 1);
            assert(through.drop_last() =~= state.devices@.subrange(0, i as int));
            assert(through.last() == device);
            reveal(Seq::filter);
        }
        if device.id != id {
            kept.push(device);
        }
        i += 1;
    }
    assert(state.devices@.subrange(0, i as int) =~= state.devices@);
    state.devices = kept;
}

/// Adds `amount` to the value of every device. Every sum must fit `i32`.
pub fn tick(state: &mut Inventory, amount: i32)
    requires
        can_shift(old(state).devices@, amount),
    ensures
        final(state).devices@ == shifted(old(state).devices@, amount),
{
    let mut i: usize = 0;
    while i < state.devices.len()
        invariant
            i <= state.devices@.len(),
            state.devices@.len() == old(state).devices@.len(),
            can_shift(old(state).devices@, amount),
            forall|k: int|
                0 <= k < i ==> (#[trigger] state.devices@[k]) == shifted(
                    old(state).devices@,
                    amount,
                )[k],
            forall|k: int|
                i <= k < state.devices@.len() ==> (#[trigger] state.devices@[k]) == old(state)
                    .devices@[k],
        decreases state.devices@.len() - i,
    {
        let device = state.devices[i];
        assert(old(state).devices@[i as int] == device);
        state.devices.set(i, Device { id: device.id, value: device.value + amount });
        i += 1;
    }
    assert(state.devices@ =~= shifted(old(state).devices@, amount));
}

/// Applies one event to the inventory.
///
/// A tick must leave every value within `i32`.
pub fn apply_event(state: &mut Inventory, ev: Event)
    requires
        ev matches Event::Tick(amount) ==> can_shift(old(state).devices@, amount),
    ensures
        final(state).devices@ == applied(old(state).devices@, ev),
{
    match ev {
        Event::Update { id, value } => {
            if !update_device(state, id, value) {
                state.devices.push(Device { id, value });
            }
        },
        Event::Remove(id) => {
            remove_device(state, id);
        },
        Event::Tick(amount) => {
            tick(state, amount);
        },
    }
}

/// What the broker is told about an event, before the event is applied.
#[derive(Debug, Clone, PartialEq, Eq)]
pub struct Publication {
    pub topic: String,
    pub id: u32,
    pub value: Option<i32>,
}

/// The topic on which an event is announced, if it is announced: updates
/// and removals are, ticks are not.
pub open spec fn announced_on(ev: Event) -> Option<Seq<char>> {
    match ev {
        Event::Update { id, .. } => Some("devices/"@ + decimal(id as nat) + "/value"@),
        Event::Remove(id) => Some("devices/"@ + decimal(id as nat) + "/deleted"@),
        Event::Tick(_) => None,
    }
}

/// What to publish for an event: the topic, the id and, for an update, the
/// value. The publisher adds the time.
pub fn publication(ev: &Event) -> (message: Option<Publication>)
    ensures
        match announced_on(*ev) {
            None => message is None,
            Some(topic) => message matches Some(m) && m.topic@ == topic && match *ev {
                Event::Update { id, value } => m.id == id && m.value == Some(value),
                Event::Remove(id) => m.id == id && m.value is None,
                Event::Tick(_) => false,
            },
        },
{
    match ev {
        Event::Update { id, value } => {
            let mut topic = String::from_str("devices/");
            append_u64(&mut topic, *id as u64);
            topic.append("/value");
            Some(Publication { topic, id: *id, value: Some(*value) })
        },
        Event::Remove(id) => {
            let mut topic = String::from_str("devices/");
            append_u64(&mut topic, *id as u64);
            topic.append("/deleted");
            Some(Publication { topic, id: *id, value: None })
        },
        Event::Tick(_) => None,
    }
}

/// A drawn number brought into the range of a starting value: the
/// remainder of the division by 100, with the sign of the number.
pub open spec fn starting_value(draw: i32) -> int {
    if draw >= 0 {
        draw as int % 100
    } else {
        -((-draw) % 100)
    }
}

/// The two updates that give the devices 1 and 2 their starting values,
/// each made from a drawn number.
pub fn startup_events(first: i32, second: i32) -> (events: Vec<Event>)
    ensures
        events@ == seq![
            Event::Update { id: 1, value: starting_value(first) as i32 },
            Event::Update { id: 2, value: starting_value(second) as i32 },
        ],
        -100 < starting_value(first) < 100,
        -100 < starting_value(second) < 100,
{
    let mut events: Vec<Event> = Vec::new();
    events.push(Event::Update { id: 1, value: first % 100 });
    events.push(Event::Update { id: 2, value: second % 100 });
    assert(events@ =~= seq![
        Event::Update { id: 1, value: starting_value(first) as i32 },
        Event::Update { id: 2, value: starting_value(second) as i32 },
    ]);
    events
}

/// `rand::random` at the type `i32`, which draws a number from the
/// generator of the thread. Nothing is known of the number.
#[verifier::external_body]
fn draw_i32() -> (draw: i32) {
    rand::random::<i32>()
}

/// The startup events with freshly drawn values: updates of the devices 1
/// and 2, each with a value strictly between -100 and 100.
pub fn random_startup_events() -> (events: Vec<Event>)
    ensures
        events@.len() == 2,
        events@[0] matches Event::Update { id: 1, value } && -100 < value < 100,
        events@[1] matches Event::Update { id: 2, value } && -100 < value < 100,
{
    let first = draw_i32();
    let second = draw_i32();
    startup_events(first, second)
}

impl Inventory {
    /// An inventory without devices.
    pub fn new() -> (state: Self)
        ensures
            state.devices@.len() == 0,
    {
        Self { devices: Vec::new() }
    }
}

} // verus!
