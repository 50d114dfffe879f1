//! The events that announce the configured devices at start-up, and the
//! events of a simulated source.

use crate::poller::RegisterMapping;
use crate::store::{GatewayEvent, Reading};
use vstd::prelude::*;

verus! {

/// Where the readings come from.
#[derive(Debug, Clone, Copy, PartialEq, Eq)]
pub enum SourceMode {
    Modbus,
    Simulation,
}

/// The creation events for the devices that `registers` feed, one for each
/// mapping, in order.
pub open spec fn creations(registers: Seq<RegisterMapping>) -> Seq<GatewayEvent> {
    Seq::new(registers.len(), |i: int| GatewayEvent::DeviceCreated { id: registers[i].device_id })
}

/// The observations of one tick of the simulated source: the two readings,
/// for the devices 1 and 2.
pub open spec fn observations(first: Reading, second: Reading) -> Seq<GatewayEvent> {
    seq![
        GatewayEvent::ValueObserved { id: 1, value: Some(first) },
        GatewayEvent::ValueObserved { id: 2, value: Some(second) },
    ]
}

/// The start-up events of a simulated source: each of the devices 1 and 2 is
/// created and then observed with its first reading.
pub open spec fn simulated_start(first: Reading, second: Reading) -> Seq<GatewayEvent> {
    seq![
        GatewayEvent::DeviceCreated { id: 1 },
        GatewayEvent::ValueObserved { id: 1, value: Some(first) },
        GatewayEvent::DeviceCreated { id: 2 },
        GatewayEvent::ValueObserved { id: 2, value: Some(second) },
    ]
}

/// The events to send before any adapter runs.
///
/// A polled source announces the device of each mapping. A simulated source
/// announces its two devices, each with a first reading; the caller draws the
/// readings.
pub fn initial_events(
    mode: SourceMode,
    registers: &Vec<RegisterMapping>,
    first: Reading,
    second: Reading,
) -> (events: Vec<GatewayEvent>)
    ensures
        events@ == match mode {
            SourceMode::Modbus => creations(registers@),
            SourceMode::Simulation => simulated_start(first, second),
        },
{
    let mut events: Vec<GatewayEvent> = Vec::new();
    match mode {
        SourceMode::Modbus => {
            let mut i: usize = 0;
            while i < registers.len()
                invariant
                    i <= registers@.len(),
                    events@ == creations(registers@.subrange(0, i as int)),
                decreases registers@.len() - i,
            {
                events.push(GatewayEvent::DeviceCreated { id: registers[i].device_id });
                assert(events@ =~= creations(registers@.subrange(0, i + 1)));
                i += 1;
            }
            assert(registers@.subrange(0, i as int) =~= registers@);
        },
        SourceMode::Simulation => {
            events.push(GatewayEvent::DeviceCreated { id: 1 });
            events.push(GatewayEvent::ValueObserved { id: 1, value: Some(first) });
            events.push(GatewayEvent::DeviceCreated { id: 2 });
            events.push(GatewayEvent::ValueObserved { id: 2, value: Some(second) });
            assert(events@ =~= simulated_start(first, second));
        },
    }
    events
}

/// The events of one tick of a simulated source; the caller draws the
/// readings.
pub fn tick_events(first: Reading, second: Reading) -> (events: Vec<GatewayEvent>)
    ensures
        events@ == observations(first, second),
{
    let mut events: Vec<GatewayEvent> = Vec::new();
    events.push(GatewayEvent::ValueObserved { id: 1, value: Some(first) });
    events.push(GatewayEvent::ValueObserved { id: 2, value: Some(second) });
    assert(events@ =~= observations(first, second));
    events
}

} // verus!
