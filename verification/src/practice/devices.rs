//! Matching on borrowed data without taking it apart.

use crate::scan::same_text;
use crate::text::{append_i64, append_u64, decimal, signed_decimal};
use vstd::prelude::*;
use vstd::string::StringExecFns;

verus! {

/// How a device is doing.
#[derive(Debug, PartialEq, Eq)]
pub enum Status {
    Online { load: u32 },
    Offline,
    Error(String),
}

/// A device with its status.
#[derive(Debug, PartialEq, Eq)]
pub struct Device {
    pub id: u32,
    pub status: Status,
}

/// The words for the status of a device.
pub open spec fn status_text(dev: Device) -> Seq<char> {
    "Device "@ + decimal(dev.id as nat) + match dev.status {
        Status::Online { load } => if load < 50 {
            ": OK"@
        } else {
            ": HIGH LOAD"@
        },
        Status::Offline => ": OFFLINE"@,
        Status::Error(msg) => ": ERROR "@ + msg@,
    }
}

/// Words the status of a device; a load of fifty or more is high.
pub fn status_msg(dev: &Device) -> (text: String)
    ensures
        text@ == status_text(*dev),
{
    let Device { id, status } = dev;
    let mut text = String::from_str("Device ");
    append_u64(&mut text, *id as u64);
    match status {
        Status::Online { load } if *load < 50 => {
            text.append(": OK");
        },
        Status::Online { .. } => {
            text.append(": HIGH LOAD");
        },
        Status::Offline => {
            text.append(": OFFLINE");
        },
        Status::Error(msg) => {
            text.append(": ERROR ");
            text.append(msg.as_str());
            assert(text@ =~= status_text(*dev));
        },
    }
    text
}

/// Takes a device in error offline; any other device stays as it is.
pub fn reset_if_error(dev: &mut Device)
    ensures
        final(dev).id == old(dev).id,
        final(dev).status == if old(dev).status is Error {
            Status::Offline
        } else {
            old(dev).status
        },
{
    if let Status::Error(_) = dev.status {
        dev.status = Status::Offline;
    }
}

/// What came back.
#[derive(Debug, Clone, Copy, PartialEq, Eq)]
pub struct Data {
    pub value: Option<i32>,
}

/// The answer to a request.
#[derive(Debug, PartialEq, Eq)]
pub enum Response {
    Success(Data),
    Timeout,
    NetworkErr(String),
}

/// The meaning of a response.
pub open spec fn meaning(resp: Response) -> Seq<char> {
    match resp {
        Response::Timeout => "timeout"@,
        Response::NetworkErr(_) => "network error"@,
        Response::Success(data) => match data.value {
            None => "no data"@,
            Some(v) => if v < 0 {
                "invalid"@
            } else if v > 0 && v <= 100 {
                "normal"@
            } else {
                "overflow"@
            },
        },
    }
}

/// Names the meaning of a response: a value below zero is invalid, one from
/// 1 to 100 normal, and any other, zero among them, an overflow.
pub fn interpret(resp: Response) -> (text: &'static str)
    ensures
        text@ == meaning(resp),
{
    match resp {
        Response::Timeout => "timeout",
        Response::NetworkErr(_) => "network error",
        Response::Success(Data { value: None }) => "no data",
        Response::Success(Data { value: Some(v) }) if v < 0 => "invalid",
        Response::Success(Data { value: Some(v) }) if v > 0 && v <= 100 => "normal",
        Response::Success(Data { value: Some(..) }) => "overflow",
    }
}

/// What a gateway hears.
#[derive(Debug, PartialEq, Eq)]
pub enum GatewayEvent {
    Sensor { id: u32, value: i32 },
    Command(String),
    Disconnect { reason: Option<String> },
}

/// The summary of an event.
pub open spec fn summary(ev: GatewayEvent) -> Seq<char> {
    match ev {
        GatewayEvent::Sensor { id, value } => if value < 0 {
            "sensor "@ + decimal(id as nat) + " invalid"@
        } else if value > 1000 {
            "sensor "@ + decimal(id as nat) + " overflow"@
        } else {
            "sensor "@ + decimal(id as nat) + ": "@ + signed_decimal(value as int)
        },
        GatewayEvent::Command(cmd) => if cmd@ == "restart"@ {
            "restarting"@
        } else if cmd@ == ""@ {
            "empty command"@
        } else {
            "cmd: "@ + cmd@
        },
        GatewayEvent::Disconnect { reason: Some(r) } => "disconnect: "@ + r@,
        GatewayEvent::Disconnect { reason: None } => "disconnect"@,
    }
}

/// Sums up an event in a few words.
pub fn summarize(ev: &GatewayEvent) -> (text: String)
    ensures
        text@ == summary(*ev),
{
    match ev {
        GatewayEvent::Sensor { id, value } => {
            let mut text = String::from_str("sensor ");
            append_u64(&mut text, *id as u64);
            if *value < 0 {
                text.append(" invalid");
            } else if *value > 1000 {
                text.append(" overflow");
            } else {
                text.append(": ");
                append_i64(&mut text, *value as i64);
            }
            text
        },
        GatewayEvent::Command(cmd) => {
            if same_text(cmd.as_str(), "restart") {
                String::from_str("restarting")
            } else if same_text(cmd.as_str(), "") {
                String::from_str("empty command")
            } else {
                let mut text = String::from_str("cmd: ");
                text.append(cmd.as_str());
                text
            }
        },
        GatewayEvent::Disconnect { reason } => match reason {
            Some(r) => {
                let mut text = String::from_str("disconnect: ");
                text.append(r.as_str());
                text
            },
            None => String::from_str("disconnect"),
        },
    }
}

} // verus!
