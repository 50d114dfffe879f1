use gateway::state::GatewayState;
use gateway::store::{DeviceRecord, GatewayEvent, NotFound, Reading, StateChange};

fn reading(value: f64) -> Reading {
    Reading::from_bits(value.to_bits())
}

fn observed(id: u32, value: f64) -> GatewayEvent {
    GatewayEvent::ValueObserved { id, value: Some(reading(value)) }
}

fn state_with(ids: &[u32]) -> GatewayState {
    let mut state = GatewayState::new();
    for id in ids {
        state.apply_event(GatewayEvent::DeviceCreated { id: *id }).unwrap();
    }
    state
}

#[test]
fn gateway_state_starts_empty() {
    assert!(GatewayState::new().snapshot().is_empty());
    assert!(GatewayState::default().snapshot().is_empty());
    assert!(!GatewayState::new().contains(1));
}

#[test]
fn first_creation_is_reported() {
    let mut state = GatewayState::new();
    assert_eq!(
        state.apply_event(GatewayEvent::DeviceCreated { id: 1 }),
        Ok(Some(StateChange::Created { id: 1 }))
    );
    assert_eq!(state.snapshot(), vec![DeviceRecord { id: 1, value: None }]);
    assert!(state.contains(1));
}

#[test]
fn second_creation_in_a_row_is_silent() {
    let mut state = GatewayState::new();
    let first = state.apply_event(GatewayEvent::DeviceCreated { id: 1 });
    let second = state.apply_event(GatewayEvent::DeviceCreated { id: 1 });
    assert_eq!(first, Ok(Some(StateChange::Created { id: 1 })));
    assert_eq!(second, Ok(None));
    assert_eq!(state.snapshot(), vec![DeviceRecord { id: 1, value: None }]);
}

#[test]
fn observation_of_an_unknown_device_changes_nothing() {
    let mut state = state_with(&[4, 2]);
    state.apply_event(observed(4, 1.0)).unwrap();
    let before = state.snapshot();
    assert_eq!(state.apply_event(observed(3, 7.0)), Err(NotFound { id: 3 }));
    assert_eq!(state.snapshot(), before);
    assert!(!state.contains(3));
    let mut empty = GatewayState::new();
    assert_eq!(empty.apply_event(observed(1, 7.0)), Err(NotFound { id: 1 }));
    assert!(empty.snapshot().is_empty());
}

#[test]
fn removal_of_an_unknown_device_changes_nothing() {
    let mut state = state_with(&[4, 2]);
    let before = state.snapshot();
    assert_eq!(state.apply_event(GatewayEvent::DeviceRemoved { id: 3 }), Err(NotFound { id: 3 }));
    assert_eq!(state.snapshot(), before);
}

#[test]
fn observation_updates_one_record_in_place() {
    let mut state = state_with(&[4, 2, 9]);
    assert_eq!(
        state.apply_event(observed(2, 21.5)),
        Ok(Some(StateChange::Updated { id: 2, value: Some(reading(21.5)) }))
    );
    assert_eq!(
        state.snapshot(),
        vec![
            DeviceRecord { id: 4, value: None },
            DeviceRecord { id: 2, value: Some(reading(21.5)) },
            DeviceRecord { id: 9, value: None },
        ]
    );
    assert_eq!(state.apply_event(observed(2, 21.5)), Ok(None));
    assert_eq!(state.snapshot().len(), 3);
}

#[test]
fn removal_takes_one_record_out_and_keeps_the_order() {
    let mut state = state_with(&[4, 2, 9]);
    state.apply_event(observed(9, 1.0)).unwrap();
    assert_eq!(
        state.apply_event(GatewayEvent::DeviceRemoved { id: 4 }),
        Ok(Some(StateChange::Removed { id: 4 }))
    );
    assert_eq!(
        state.snapshot(),
        vec![
            DeviceRecord { id: 2, value: None },
            DeviceRecord { id: 9, value: Some(reading(1.0)) },
        ]
    );
    state.apply_event(GatewayEvent::DeviceCreated { id: 4 }).unwrap();
    assert_eq!(
        state.snapshot().iter().map(|record| record.id).collect::<Vec<_>>(),
        vec![2, 9, 4]
    );
}

#[test]
fn four_events_from_creation_to_removal() {
    let mut state = GatewayState::new();
    let results: Vec<_> = [
        GatewayEvent::DeviceCreated { id: 1 },
        observed(1, 10.0),
        observed(1, 12.5),
        GatewayEvent::DeviceRemoved { id: 1 },
    ]
    .into_iter()
    .map(|event| state.apply_event(event))
    .collect();
    assert_eq!(
        results,
        vec![
            Ok(Some(StateChange::Created { id: 1 })),
            Ok(Some(StateChange::Updated { id: 1, value: Some(reading(10.0)) })),
            Ok(Some(StateChange::Updated { id: 1, value: Some(reading(12.5)) })),
            Ok(Some(StateChange::Removed { id: 1 })),
        ]
    );
    assert!(state.snapshot().is_empty());
}

#[test]
fn snapshot_of_the_state_is_an_independent_copy() {
    let mut state = state_with(&[1, 2]);
    let mut copy = state.snapshot();
    copy.clear();
    assert_eq!(state.snapshot().len(), 2);
    let earlier = state.snapshot();
    state.apply_event(GatewayEvent::DeviceRemoved { id: 1 }).unwrap();
    assert_eq!(earlier.len(), 2);
    assert_eq!(state.snapshot(), vec![DeviceRecord { id: 2, value: None }]);
}
