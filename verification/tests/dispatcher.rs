use gateway::dispatcher::{CallbackListener, Dispatcher, ListenerError, StateListener};
use gateway::logging::ConsoleLogger;
use gateway::orchestrator::{Handled, Orchestrator};
use gateway::state::GatewayState;
use gateway::store::{DeviceRecord, GatewayEvent, NotFound, Reading, StateChange};
use std::cell::{Cell, RefCell};
use std::rc::Rc;

type Callback = Box<dyn Fn(StateChange) -> Result<(), ListenerError>>;
type Probe = CallbackListener<Callback>;

fn failing() -> Probe {
    CallbackListener::new(Box::new(|_| Err(ListenerError::General("fail".into()))))
}

fn counting(calls: &Rc<Cell<u32>>) -> Probe {
    let calls = calls.clone();
    CallbackListener::new(Box::new(move |_| {
        calls.set(calls.get() + 1);
        Ok(())
    }))
}

fn recording(seen: &Rc<RefCell<Vec<StateChange>>>) -> Probe {
    let seen = seen.clone();
    CallbackListener::new(Box::new(move |change| {
        seen.borrow_mut().push(change);
        Ok(())
    }))
}

fn reading(value: f64) -> Reading {
    Reading::from_bits(value.to_bits())
}

#[test]
fn dispatcher_continues_after_listener_failure() {
    let calls = Rc::new(Cell::new(0));
    let mut dispatcher = Dispatcher::new(vec![failing(), counting(&calls)]);

    let answers = dispatcher.dispatch(StateChange::Created { id: 1 });

    assert_eq!(calls.get(), 1);
    assert_eq!(answers, vec![Err(ListenerError::General("fail".into())), Ok(())]);
    assert_eq!(dispatcher.into_listeners().len(), 2);
}

#[test]
fn dispatcher_notifies_in_registration_order() {
    let order = Rc::new(RefCell::new(Vec::new()));
    let tagged = |tag: u32| -> Probe {
        let order = order.clone();
        CallbackListener::new(Box::new(move |change| {
            order.borrow_mut().push((tag, change));
            if tag == 2 {
                Err(ListenerError::Mqtt("offline".into()))
            } else {
                Ok(())
            }
        }))
    };
    let mut dispatcher = Dispatcher::new(vec![tagged(1), tagged(2), tagged(3)]);
    assert_eq!(dispatcher.len(), 3);
    let created = StateChange::Created { id: 1 };
    let removed = StateChange::Removed { id: 1 };
    let first = dispatcher.dispatch(created);
    let second = dispatcher.dispatch(removed);
    assert_eq!(first, vec![Ok(()), Err(ListenerError::Mqtt("offline".into())), Ok(())]);
    assert_eq!(first, second);
    assert_eq!(
        *order.borrow(),
        vec![(1, created), (2, created), (3, created), (1, removed), (2, removed), (3, removed)]
    );
}

#[test]
fn dispatcher_without_listeners_does_nothing() {
    let mut dispatcher: Dispatcher<Probe> = Dispatcher::new(Vec::new());
    assert_eq!(dispatcher.len(), 0);
    assert!(dispatcher.dispatch(StateChange::Created { id: 1 }).is_empty());
}

#[test]
fn orchestrator_dispatches_only_accepted_changes() {
    let seen = Rc::new(RefCell::new(Vec::new()));
    let dispatcher = Dispatcher::new(vec![failing(), recording(&seen)]);
    let mut orchestrator = Orchestrator::new(GatewayState::new(), dispatcher);

    match orchestrator.handle(GatewayEvent::DeviceCreated { id: 1 }) {
        Handled::Dispatched { change, answers } => {
            assert_eq!(change, StateChange::Created { id: 1 });
            assert_eq!(answers.len(), 2);
            assert!(answers[0].is_err());
            assert!(answers[1].is_ok());
        }
        other => panic!("unexpected {other:?}"),
    }
    assert!(matches!(orchestrator.handle(GatewayEvent::DeviceCreated { id: 1 }), Handled::Unchanged));
    assert!(matches!(
        orchestrator.handle(GatewayEvent::DeviceRemoved { id: 2 }),
        Handled::Rejected(NotFound { id: 2 })
    ));
    assert_eq!(orchestrator.snapshot(), vec![DeviceRecord { id: 1, value: None }]);

    assert_eq!(*seen.borrow(), vec![StateChange::Created { id: 1 }]);
    let (state, dispatcher) = orchestrator.into_parts();
    assert_eq!(state.snapshot().len(), 1);
    assert_eq!(dispatcher.len(), 2);
}

#[test]
fn orchestrator_runs_events_end_to_end() {
    let seen = Rc::new(RefCell::new(Vec::new()));
    let dispatcher = Dispatcher::new(vec![recording(&seen)]);
    let mut orchestrator = Orchestrator::new(GatewayState::new(), dispatcher);
    let events = vec![
        GatewayEvent::DeviceCreated { id: 1 },
        GatewayEvent::ValueObserved { id: 1, value: Some(reading(10.0)) },
        GatewayEvent::ValueObserved { id: 1, value: Some(reading(12.5)) },
        GatewayEvent::DeviceRemoved { id: 1 },
    ];
    let report = orchestrator.run(&events);
    let expected = vec![
        StateChange::Created { id: 1 },
        StateChange::Updated { id: 1, value: Some(reading(10.0)) },
        StateChange::Updated { id: 1, value: Some(reading(12.5)) },
        StateChange::Removed { id: 1 },
    ];
    assert_eq!(report.changes, expected);
    assert_eq!(report.rejected, 0);
    assert!(orchestrator.snapshot().is_empty());
    assert_eq!(*seen.borrow(), expected);
    let (state, _) = orchestrator.into_parts();
    assert!(state.snapshot().is_empty());
}

#[test]
fn orchestrator_counts_rejections_and_goes_on() {
    let calls = Rc::new(Cell::new(0));
    let dispatcher = Dispatcher::new(vec![counting(&calls)]);
    let mut orchestrator = Orchestrator::new(GatewayState::new(), dispatcher);
    let events = vec![
        GatewayEvent::ValueObserved { id: 1, value: Some(reading(1.0)) },
        GatewayEvent::DeviceRemoved { id: 1 },
        GatewayEvent::DeviceCreated { id: 1 },
        GatewayEvent::DeviceCreated { id: 1 },
        GatewayEvent::ValueObserved { id: 1, value: Some(reading(1.0)) },
        GatewayEvent::ValueObserved { id: 1, value: Some(reading(1.0)) },
    ];
    let report = orchestrator.run(&events);
    assert_eq!(report.rejected, 2);
    assert_eq!(
        report.changes,
        vec![
            StateChange::Created { id: 1 },
            StateChange::Updated { id: 1, value: Some(reading(1.0)) },
        ]
    );
    assert_eq!(calls.get(), 2);
}

#[test]
fn orchestrator_without_events_changes_nothing() {
    let calls = Rc::new(Cell::new(0));
    let mut orchestrator =
        Orchestrator::new(GatewayState::new(), Dispatcher::new(vec![counting(&calls)]));
    let report = orchestrator.run(&Vec::new());
    assert!(report.changes.is_empty());
    assert_eq!(report.rejected, 0);
    assert!(orchestrator.snapshot().is_empty());
    assert_eq!(calls.get(), 0);
}

#[test]
fn console_logger_refuses_device_zero() {
    let mut logger = ConsoleLogger::new();
    assert_eq!(
        logger.on_event(StateChange::Created { id: 0 }),
        Err(ListenerError::General("Device ID 0 is reserved/invalid".into()))
    );
    assert!(logger.take_lines().is_empty());
    assert_eq!(logger.on_event(StateChange::Removed { id: 0 }), Ok(()));
    assert_eq!(logger.on_event(StateChange::Updated { id: 0, value: None }), Ok(()));
    assert_eq!(logger.take_lines().len(), 2);
}

#[test]
fn console_logger_words_its_lines() {
    let mut logger = ConsoleLogger::new();
    logger.on_event(StateChange::Created { id: 12 }).unwrap();
    logger.on_event(StateChange::Updated { id: 12, value: Some(reading(1.5)) }).unwrap();
    logger.on_event(StateChange::Updated { id: 12, value: None }).unwrap();
    logger.on_event(StateChange::Removed { id: 4294967295 }).unwrap();
    let lines = logger.take_lines();
    assert_eq!(lines.len(), 4);
    assert_eq!(lines[0].text, "Device 12 was created");
    assert_eq!(lines[0].reading, None);
    assert_eq!(lines[1].text, "Device 12 was updated with value ");
    assert_eq!(lines[1].reading, Some(reading(1.5)));
    assert_eq!(lines[2].text, "Device 12 was updated with value None");
    assert_eq!(lines[2].reading, None);
    assert_eq!(lines[3].text, "Device 4294967295 was removed");
    assert!(logger.take_lines().is_empty());
}

#[test]
fn console_logger_works_behind_a_dispatcher() {
    let mut dispatcher = Dispatcher::new(vec![ConsoleLogger::new(), ConsoleLogger::new()]);
    let answers = dispatcher.dispatch(StateChange::Created { id: 0 });
    assert!(answers.iter().all(|a| a.is_err()));
    let answers = dispatcher.dispatch(StateChange::Created { id: 3 });
    assert!(answers.iter().all(|a| a.is_ok()));
    for mut logger in dispatcher.into_listeners() {
        let lines = logger.take_lines();
        assert_eq!(lines.len(), 1);
        assert_eq!(lines[0].text, "Device 3 was created");
    }
}
