//! What the request handlers decide: which events a request turns into, and
//! which class of response a result of the store deserves.

use crate::store::{
    next_state, outcome, rejections, replay, DeviceId, Devices, GatewayEvent, NotFound, Reading,
    StateChange,
};
use vstd::prelude::*;

verus! {

/// A command that arrives over the request surface.
#[derive(Debug, Clone, Copy, PartialEq, Eq)]
pub enum Request {
    /// Make the device known.
    Create { id: DeviceId },
    /// Record a reading for a device that must exist.
    Update { id: DeviceId, value: Reading },
    /// Record a reading, making the device known first if need be.
    CreateOrUpdate { id: DeviceId, value: Reading },
    /// Forget the device.
    Delete { id: DeviceId },
}

/// The class of a response.
#[derive(Debug, Clone, Copy, PartialEq, Eq)]
pub enum ResponseClass {
    /// The request was carried out.
    Success,
    /// The request named a device that does not exist.
    NotFound,
}

/// The events that `request` is turned into, in the order in which they are
/// queued.
pub open spec fn events_of(request: Request) -> Seq<GatewayEvent> {
    match request {
        Request::Create { id } => seq![GatewayEvent::DeviceCreated { id }],
        Request::Update { id, value } => seq![GatewayEvent::ValueObserved { id, value: Some(value) }],
        Request::CreateOrUpdate { id, value } => seq![
            GatewayEvent::DeviceCreated { id },
            GatewayEvent::ValueObserved { id, value: Some(value) },
        ],
        Request::Delete { id } => seq![GatewayEvent::DeviceRemoved { id }],
    }
}

/// Turns a request into the events to queue.
pub fn events_for(request: Request) -> (events: Vec<GatewayEvent>)
    ensures
        events@ == events_of(request),
{
    let mut events: Vec<GatewayEvent> = Vec::new();
    match request {
        Request::Create { id } => {
            events.push(GatewayEvent::DeviceCreated { id });
        },
        Request::Update { id, value } => {
            events.push(GatewayEvent::ValueObserved { id, value: Some(value) });
        },
        Request::CreateOrUpdate { id, value } => {
            events.push(GatewayEvent::DeviceCreated { id });
            events.push(GatewayEvent::ValueObserved { id, value: Some(value) });
        },
        Request::Delete { id } => {
            events.push(GatewayEvent::DeviceRemoved { id });
        },
    }
    assert(events@ =~= events_of(request));
    events
}

/// Whether `request` asks for something about a device that must exist.
pub open spec fn needs_device(request: Request) -> bool {
    request is Update || request is Delete
}

/// The device that `request` is about.
pub open spec fn target(request: Request) -> DeviceId {
    match request {
        Request::Create { id } => id,
        Request::Update { id, .. } => id,
        Request::CreateOrUpdate { id, .. } => id,
        Request::Delete { id } => id,
    }
}

/// The class of response to `request`, given whether its device is known:
/// an update or a removal of an unknown device is "not found", and nothing
/// is queued for it.
pub fn precheck(request: Request, known: bool) -> (class: ResponseClass)
    ensures
        class == if needs_device(request) && !known {
            ResponseClass::NotFound
        } else {
            ResponseClass::Success
        },
{
    match request {
        Request::Update { .. } | Request::Delete { .. } => {
            if known {
                ResponseClass::Success
            } else {
                ResponseClass::NotFound
            }
        },
        _ => ResponseClass::Success,
    }
}

/// The answer of the check foretells the store: the events of a request
/// that passes on the table as it stands are all accepted, and those of a
/// request that does not pass would all be rejected and change nothing.
pub proof fn lemma_precheck_foretells_the_store(devices: Devices, request: Request)
    ensures
        ({
            let events = events_of(request);
            if needs_device(request) && !devices.contains_key(target(request)) {
                rejections(devices, events) == events.len() && replay(devices, events) == devices
            } else {
                rejections(devices, events) == 0
            }
        }),
{
    let events = events_of(request);
    let none = Seq::<GatewayEvent>::empty();
    assert(replay(devices, none) == devices);
    assert(rejections(devices, none) == 0);
    match request {
        Request::CreateOrUpdate { id, value } => {
            let first = seq![GatewayEvent::DeviceCreated { id }];
            assert(first.drop_last() =~= none);
            assert(first.last() == GatewayEvent::DeviceCreated { id });
            assert(events.drop_last() =~= first);
            assert(events.last() == GatewayEvent::ValueObserved { id, value: Some(value) });
            assert(replay(devices, first) == next_state(devices, GatewayEvent::DeviceCreated { id }));
            assert(rejections(devices, first) == 0);
        },
        _ => {
            assert(events.drop_last() =~= none);
            if needs_device(request) && !devices.contains_key(target(request)) {
                assert(next_state(devices, events.last()) =~= devices);
            }
        },
    }
}

/// The class of response for what the store answered: a rejection is "not
/// found", everything else a success.
pub fn response_for(result: &Result<Option<StateChange>, NotFound>) -> (class: ResponseClass)
    ensures
        class == if result is Err {
            ResponseClass::NotFound
        } else {
            ResponseClass::Success
        },
{
    match result {
        Ok(_) => ResponseClass::Success,
        Err(_) => ResponseClass::NotFound,
    }
}

/// Creating or updating never fails for want of the device: after the
/// creation event the observation is accepted, whatever the table held
/// before, and the device ends with the reading.
pub proof fn lemma_create_or_update_succeeds(devices: Devices, id: DeviceId, value: Reading)
    ensures
        ({
            let created = next_state(devices, GatewayEvent::DeviceCreated { id });
            let observed = GatewayEvent::ValueObserved { id, value: Some(value) };
            &&& outcome(devices, GatewayEvent::DeviceCreated { id }) is Ok
            &&& outcome(created, observed) is Ok
            &&& next_state(created, observed).contains_key(id)
            &&& next_state(created, observed)[id] == Some(value)
        }),
{
}

} // verus!
