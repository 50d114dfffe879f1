use gateway::practice::devices::{
    interpret, reset_if_error, status_msg, summarize, Data, Device, GatewayEvent, Response,
    Status,
};
use gateway::practice::input_events::{dispatch, filter_clicks, only_click, process, Event};
use gateway::practice::links::{
    classify as classify_metrics, describe as describe_connection, handle as handle_msg,
    Connection, GatewayMsg, Metrics, Packet,
};
use gateway::practice::matching::{
    area as rectangle_area, extract_click, handle as handle_message, Action,
    Event as InputEvent, Message, Rectangle,
};
use gateway::practice::sensors::{
    describe as describe_sensor, handle as handle_event, is_enabled, take_name, Config,
    GatewayEvent as SensorEvent, Sensor, SensorData,
};
use gateway::practice::shapes::{
    area as shape_area, classify, describe as describe_login, Event as LoginEvent, Point, Role,
    Shape,
};

#[test]
fn input_events_are_worded() {
    assert_eq!(process(Event::Click { x: 3, y: -4 }), "Click at (3,-4)");
    assert_eq!(process(Event::Key('q')), "Quit key");
    assert_eq!(process(Event::Key('c')), "Key c");
    assert_eq!(process(Event::Key('x')), "Other key: x");
    assert_eq!(process(Event::Key('ß')), "Other key: ß");
    assert_eq!(process(Event::Resize(800, 600)), "Resized to 800x600");
    assert_eq!(process(Event::Quit), "Program ended");
    assert_eq!(
        process(Event::Click { x: i32::MIN, y: i32::MAX }),
        "Click at (-2147483648,2147483647)"
    );
}

#[test]
fn clicks_are_picked_out() {
    assert_eq!(only_click(&Event::Click { x: 1, y: 2 }), Some((1, 2)));
    assert_eq!(only_click(&Event::Key('a')), None);
    assert_eq!(only_click(&Event::Quit), None);
    let events = vec![
        Event::Click { x: 1, y: 2 },
        Event::Key('a'),
        Event::Resize(1, 1),
        Event::Click { x: -3, y: 4 },
        Event::Quit,
    ];
    assert_eq!(filter_clicks(events), vec![(1, 2), (-3, 4)]);
    assert_eq!(filter_clicks(Vec::new()), Vec::new());
    assert_eq!(filter_clicks(vec![Event::Quit]), Vec::new());
}

#[test]
fn keys_are_reported() {
    assert_eq!(dispatch(Event::Key('k')), "Pressed key: k");
    assert_eq!(dispatch(Event::Quit), "not a key");
    assert_eq!(dispatch(Event::Click { x: 0, y: 0 }), "not a key");
}

#[test]
fn messages_are_answered() {
    assert_eq!(handle_message(Message::Quit), "Bye");
    assert_eq!(handle_message(Message::Move { x: 0, y: 0 }), "No movement");
    assert_eq!(handle_message(Message::Move { x: 0, y: 5 }), "Moving to (0,5)");
    assert_eq!(handle_message(Message::Move { x: -1, y: 0 }), "Moving to (-1,0)");
    assert_eq!(handle_message(Message::Write(String::new())), "Empty");
    assert_eq!(handle_message(Message::Write("hi".into())), "Text: hi");
    assert_eq!(handle_message(Message::ChangeColor(20, 20, 20)), "Dark color");
    assert_eq!(handle_message(Message::ChangeColor(0, 0, 0)), "Dark color");
    assert_eq!(handle_message(Message::ChangeColor(21, 0, 0)), "Color RGB(21,0,0)");
    assert_eq!(handle_message(Message::ChangeColor(255, 128, 7)), "Color RGB(255,128,7)");
}

#[test]
fn rectangles_have_areas() {
    assert_eq!(rectangle_area(Rectangle { width: 3, height: 4 }), 12);
    assert_eq!(rectangle_area(Rectangle { width: 0, height: 4 }), 0);
    assert_eq!(rectangle_area(Rectangle { width: 65535, height: 65537 }), u32::MAX);
}

#[test]
fn mouse_clicks_are_extracted() {
    assert_eq!(extract_click(Action::Mouse(InputEvent::Click { x: 1, y: 2 })), Some((1, 2)));
    assert_eq!(extract_click(Action::Keyboard(InputEvent::Click { x: 1, y: 2 })), None);
    assert_eq!(extract_click(Action::Mouse(InputEvent::Key('a'))), None);
    assert_eq!(extract_click(Action::Keyboard(InputEvent::Key('a'))), None);
}

#[test]
fn numbers_are_classified() {
    assert_eq!(classify(-10), "negative");
    assert_eq!(classify(i32::MIN), "negative");
    assert_eq!(classify(-1), "negative");
    assert_eq!(classify(0), "zero");
    assert_eq!(classify(1), "small");
    assert_eq!(classify(2), "small");
    assert_eq!(classify(10), "small");
    assert_eq!(classify(11), "big odd");
    assert_eq!(classify(15), "big odd");
    assert_eq!(classify(100), "big even");
    assert_eq!(classify(i32::MAX), "big odd");
}

#[test]
fn logins_are_described() {
    let login = |name: &str, role| LoginEvent::Login { name: name.to_string(), role };
    assert_eq!(describe_login(login("ann", Role::Admin { level: 0 })), "Admin login: ann (low)");
    assert_eq!(describe_login(login("ann", Role::Admin { level: 4 })), "Admin login: ann (low)");
    assert_eq!(describe_login(login("ann", Role::Admin { level: 5 })), "Admin login: ann (high)");
    assert_eq!(describe_login(login("bob", Role::User)), "User login: bob");
    assert_eq!(describe_login(LoginEvent::Logout("bob".to_string())), "Goodbye bob");
}

#[test]
fn shapes_have_areas() {
    let origin = Point { x: 0, y: 0 };
    assert_eq!(shape_area(Shape::Circle(origin, 2)), 12);
    assert_eq!(shape_area(Shape::Circle(origin, 0)), 0);
    assert_eq!(shape_area(Shape::Circle(Point { x: 9, y: -9 }, 37837)), 3 * 37837 * 37837);
    let rect = |x1, y1, x2, y2| Shape::Rect {
        top_left: Point { x: x1, y: y1 },
        bottom_right: Point { x: x2, y: y2 },
    };
    assert_eq!(shape_area(rect(0, 0, 3, 4)), 12);
    assert_eq!(shape_area(rect(3, 4, 0, 0)), 12);
    assert_eq!(shape_area(rect(-2, 5, 2, -5)), 40);
    assert_eq!(shape_area(rect(1, 1, 1, 9)), 0);
}

#[test]
fn sensors_are_described() {
    assert_eq!(describe_sensor(&Sensor { id: 1, value: 5, active: false }), "Sensor 1 inactive");
    assert_eq!(describe_sensor(&Sensor { id: 1, value: -5, active: false }), "Sensor 1 inactive");
    assert_eq!(describe_sensor(&Sensor { id: 2, value: -1, active: true }), "Sensor 2 error");
    assert_eq!(describe_sensor(&Sensor { id: 3, value: 0, active: true }), "Sensor 3: 0");
    assert_eq!(describe_sensor(&Sensor { id: 3, value: 77, active: true }), "Sensor 3: 77");
}

#[test]
fn settings_are_read() {
    let cfg = Config { name: "main".to_string(), retries: 3, enabled: true };
    assert!(is_enabled(&cfg));
    assert_eq!(cfg.retries, 3);
    assert_eq!(take_name(cfg), "main");
    assert!(!is_enabled(&Config { name: String::new(), retries: 0, enabled: false }));
}

#[test]
fn sensor_events_are_handled() {
    let update = |value| SensorEvent::SensorUpdate(SensorData { id: 7, value, timestamp: 1700 });
    assert_eq!(handle_event(update(-1)), "Sensor 7 invalid");
    assert_eq!(handle_event(update(1001)), "Sensor 7 overflow");
    assert_eq!(handle_event(update(0)), "Sensor 7: 0 at 1700");
    assert_eq!(handle_event(update(1000)), "Sensor 7: 1000 at 1700");
    assert_eq!(
        handle_event(SensorEvent::ConnectionLost { id: 2, reason: "timeout".to_string() }),
        "Lost 2: timeout"
    );
    assert_eq!(handle_event(SensorEvent::Shutdown), "Shutting down");
}

#[test]
fn metrics_are_classified() {
    let m = |temp, humidity| Metrics { temp, humidity };
    assert_eq!(classify_metrics(&m(None, None)), "no temp data");
    assert_eq!(classify_metrics(&m(None, Some(99))), "no temp data");
    assert_eq!(classify_metrics(&m(Some(-1), Some(99))), "freezing");
    assert_eq!(classify_metrics(&m(Some(61), Some(99))), "overheat");
    assert_eq!(classify_metrics(&m(Some(60), Some(81))), "humid");
    assert_eq!(classify_metrics(&m(Some(0), Some(80))), "ok");
    assert_eq!(classify_metrics(&m(Some(20), None)), "ok");
}

#[test]
fn connections_are_described() {
    let wifi = |strength| Connection::Wifi { ssid: "home".to_string(), strength };
    assert_eq!(describe_connection(wifi(-81)), "wifi weak (home)");
    assert_eq!(describe_connection(wifi(-80)), "wifi ok");
    assert_eq!(describe_connection(Connection::Ethernet { speed: 1000 }), "gb ethernet");
    assert_eq!(describe_connection(Connection::Ethernet { speed: 999 }), "ethernet");
    assert_eq!(describe_connection(Connection::Bluetooth(Some("pods".into()))), "bt: pods");
    assert_eq!(describe_connection(Connection::Bluetooth(None)), "bt: unknown");
}

#[test]
fn gateway_messages_are_handled() {
    let data = |id, data| GatewayMsg::Data(Packet { id, data });
    assert_eq!(handle_msg(data(1, None)), "empty packet");
    assert_eq!(handle_msg(data(0, None)), "empty packet");
    assert_eq!(handle_msg(data(0, Some(vec![1]))), "invalid id");
    assert_eq!(handle_msg(data(0, Some(vec![]))), "invalid id");
    assert_eq!(handle_msg(data(5, Some(vec![]))), "no bytes");
    assert_eq!(handle_msg(data(5, Some(vec![1, 2, 3]))), "packet 5: 3 bytes");
    assert_eq!(handle_msg(GatewayMsg::Heartbeat { ts: 99 }), "hb 99");
    assert_eq!(handle_msg(GatewayMsg::Error("boom".into())), "err: boom");
}

#[test]
fn device_status_is_worded() {
    let dev = |status| Device { id: 9, status };
    assert_eq!(status_msg(&dev(Status::Online { load: 49 })), "Device 9: OK");
    assert_eq!(status_msg(&dev(Status::Online { load: 50 })), "Device 9: HIGH LOAD");
    assert_eq!(status_msg(&dev(Status::Offline)), "Device 9: OFFLINE");
    assert_eq!(status_msg(&dev(Status::Error("E42".into()))), "Device 9: ERROR E42");
}

#[test]
fn devices_in_error_are_reset() {
    let mut broken = Device { id: 1, status: Status::Error("x".into()) };
    reset_if_error(&mut broken);
    assert_eq!(broken, Device { id: 1, status: Status::Offline });
    let mut fine = Device { id: 2, status: Status::Online { load: 5 } };
    reset_if_error(&mut fine);
    assert_eq!(fine, Device { id: 2, status: Status::Online { load: 5 } });
    let mut off = Device { id: 3, status: Status::Offline };
    reset_if_error(&mut off);
    assert_eq!(off.status, Status::Offline);
}

#[test]
fn responses_are_interpreted() {
    let ok = |value| Response::Success(Data { value });
    assert_eq!(interpret(Response::Timeout), "timeout");
    assert_eq!(interpret(Response::NetworkErr("down".into())), "network error");
    assert_eq!(interpret(ok(None)), "no data");
    assert_eq!(interpret(ok(Some(-1))), "invalid");
    assert_eq!(interpret(ok(Some(1))), "normal");
    assert_eq!(interpret(ok(Some(100))), "normal");
    assert_eq!(interpret(ok(Some(0))), "overflow");
    assert_eq!(interpret(ok(Some(101))), "overflow");
}

#[test]
fn gateway_events_are_summed_up() {
    assert_eq!(summarize(&GatewayEvent::Sensor { id: 1, value: -1 }), "sensor 1 invalid");
    assert_eq!(summarize(&GatewayEvent::Sensor { id: 1, value: 1001 }), "sensor 1 overflow");
    assert_eq!(summarize(&GatewayEvent::Sensor { id: 1, value: 1000 }), "sensor 1: 1000");
    assert_eq!(summarize(&GatewayEvent::Sensor { id: 1, value: 0 }), "sensor 1: 0");
    assert_eq!(summarize(&GatewayEvent::Command("restart".into())), "restarting");
    assert_eq!(summarize(&GatewayEvent::Command(String::new())), "empty command");
    assert_eq!(summarize(&GatewayEvent::Command("stop".into())), "cmd: stop");
    assert_eq!(
        summarize(&GatewayEvent::Disconnect { reason: Some("bye".into()) }),
        "disconnect: bye"
    );
    assert_eq!(summarize(&GatewayEvent::Disconnect { reason: None }), "disconnect");
}
