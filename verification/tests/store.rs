use gateway::store::{
    same_reading, DeviceRecord, GatewayEvent, NotFound, Reading, StateChange, StateStore,
};

fn reading(value: f64) -> Reading {
    Reading::from_bits(value.to_bits())
}

fn observed(id: u32, value: f64) -> GatewayEvent {
    GatewayEvent::ValueObserved { id, value: Some(reading(value)) }
}

#[test]
fn new_store_is_empty() {
    let store = StateStore::new();
    assert_eq!(store.len(), 0);
    assert!(store.snapshot().is_empty());
    assert!(!store.contains(1));
    assert_eq!(store.get(1), None);
}

#[test]
fn creation_makes_a_device_without_reading() {
    let mut store = StateStore::new();
    assert_eq!(
        store.apply(GatewayEvent::DeviceCreated { id: 7 }),
        Ok(Some(StateChange::Created { id: 7 }))
    );
    assert!(store.contains(7));
    assert_eq!(store.get(7), Some(DeviceRecord { id: 7, value: None }));
    assert_eq!(store.snapshot(), vec![DeviceRecord { id: 7, value: None }]);
}

#[test]
fn duplicate_creation_reports_one_change() {
    let mut store = StateStore::new();
    let first = store.apply(GatewayEvent::DeviceCreated { id: 1 });
    let second = store.apply(GatewayEvent::DeviceCreated { id: 1 });
    assert_eq!(first, Ok(Some(StateChange::Created { id: 1 })));
    assert_eq!(second, Ok(None));
    assert_eq!(store.len(), 1);
    assert_eq!(store.snapshot(), vec![DeviceRecord { id: 1, value: None }]);
}

#[test]
fn duplicate_creation_keeps_the_reading() {
    let mut store = StateStore::new();
    store.apply(GatewayEvent::DeviceCreated { id: 1 }).unwrap();
    store.apply(observed(1, 3.5)).unwrap();
    assert_eq!(store.apply(GatewayEvent::DeviceCreated { id: 1 }), Ok(None));
    assert_eq!(store.get(1), Some(DeviceRecord { id: 1, value: Some(reading(3.5)) }));
}

#[test]
fn observation_of_unknown_device_is_rejected() {
    let mut store = StateStore::new();
    store.apply(GatewayEvent::DeviceCreated { id: 1 }).unwrap();
    store.apply(observed(1, 4.0)).unwrap();
    let before = store.snapshot();
    assert_eq!(store.apply(observed(2, 1.0)), Err(NotFound { id: 2 }));
    assert_eq!(store.snapshot(), before);
}

#[test]
fn removal_of_unknown_device_is_rejected() {
    let mut store = StateStore::new();
    store.apply(GatewayEvent::DeviceCreated { id: 1 }).unwrap();
    let before = store.snapshot();
    assert_eq!(store.apply(GatewayEvent::DeviceRemoved { id: 9 }), Err(NotFound { id: 9 }));
    assert_eq!(store.snapshot(), before);
    assert_eq!(
        StateStore::new().apply(GatewayEvent::DeviceRemoved { id: 1 }),
        Err(NotFound { id: 1 })
    );
}

#[test]
fn identical_observation_is_idempotent() {
    let mut store = StateStore::new();
    store.apply(GatewayEvent::DeviceCreated { id: 1 }).unwrap();
    assert_eq!(
        store.apply(observed(1, 10.0)),
        Ok(Some(StateChange::Updated { id: 1, value: Some(reading(10.0)) }))
    );
    let once = store.snapshot();
    assert_eq!(store.apply(observed(1, 10.0)), Ok(None));
    assert_eq!(store.snapshot(), once);
    assert_eq!(store.get(1).unwrap().value.map(|r| f64::from_bits(r.to_bits())), Some(10.0));
}

#[test]
fn observation_without_reading_clears_the_value() {
    let mut store = StateStore::new();
    store.apply(GatewayEvent::DeviceCreated { id: 1 }).unwrap();
    assert_eq!(store.apply(GatewayEvent::ValueObserved { id: 1, value: None }), Ok(None));
    store.apply(observed(1, 2.0)).unwrap();
    assert_eq!(
        store.apply(GatewayEvent::ValueObserved { id: 1, value: None }),
        Ok(Some(StateChange::Updated { id: 1, value: None }))
    );
    assert_eq!(store.get(1), Some(DeviceRecord { id: 1, value: None }));
}

#[test]
fn end_to_end_create_observe_remove() {
    let mut store = StateStore::new();
    let events = [
        GatewayEvent::DeviceCreated { id: 1 },
        observed(1, 10.0),
        observed(1, 12.5),
        GatewayEvent::DeviceRemoved { id: 1 },
    ];
    let mut changes = Vec::new();
    for event in events {
        if let Ok(Some(change)) = store.apply(event) {
            changes.push(change);
        }
    }
    assert_eq!(
        changes,
        vec![
            StateChange::Created { id: 1 },
            StateChange::Updated { id: 1, value: Some(reading(10.0)) },
            StateChange::Updated { id: 1, value: Some(reading(12.5)) },
            StateChange::Removed { id: 1 },
        ]
    );
    assert!(store.snapshot().is_empty());
    assert_eq!(store.len(), 0);
}

#[test]
fn snapshot_keeps_creation_order_and_is_independent() {
    let mut store = StateStore::new();
    for id in [5, 3, 9] {
        store.apply(GatewayEvent::DeviceCreated { id }).unwrap();
    }
    store.apply(observed(3, 1.5)).unwrap();
    let mut copy = store.snapshot();
    assert_eq!(
        copy,
        vec![
            DeviceRecord { id: 5, value: None },
            DeviceRecord { id: 3, value: Some(reading(1.5)) },
            DeviceRecord { id: 9, value: None },
        ]
    );
    copy.clear();
    assert_eq!(store.len(), 3);
    store.apply(GatewayEvent::DeviceRemoved { id: 5 }).unwrap();
    assert_eq!(
        store.snapshot(),
        vec![
            DeviceRecord { id: 3, value: Some(reading(1.5)) },
            DeviceRecord { id: 9, value: None },
        ]
    );
}

#[test]
fn event_names_its_device() {
    assert_eq!(GatewayEvent::DeviceCreated { id: 4 }.device(), 4);
    assert_eq!(observed(5, 0.0).device(), 5);
    assert_eq!(GatewayEvent::DeviceRemoved { id: 6 }.device(), 6);
}

#[test]
fn readings_are_told_apart_by_their_bits() {
    assert!(same_reading(None, None));
    assert!(same_reading(Some(reading(1.0)), Some(reading(1.0))));
    assert!(!same_reading(Some(reading(1.0)), Some(reading(2.0))));
    assert!(!same_reading(Some(reading(0.0)), Some(reading(-0.0))));
    assert!(!same_reading(None, Some(reading(0.0))));
    assert_eq!(reading(12.5).to_bits(), 12.5f64.to_bits());
}
