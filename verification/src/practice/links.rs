//! Matching on optional fields and nested data.

use crate::text::{append_u64, decimal};
use vstd::prelude::*;
use vstd::string::StringExecFns;

verus! {

/// Measurements, each of which may be missing.
#[derive(Debug, Clone, Copy, PartialEq, Eq)]
pub struct Metrics {
    pub temp: Option<i32>,
    pub humidity: Option<u8>,
}

/// The class of measurements.
pub open spec fn class_of(m: Metrics) -> Seq<char> {
    match m.temp {
        None => "no temp data"@,
        Some(t) => if t < 0 {
            "freezing"@
        } else if t > 60 {
            "overheat"@
        } else if m.humidity matches Some(h) && h > 80 {
            "humid"@
        } else {
            "ok"@
        },
    }
}

/// Names the class of measurements: the temperature decides first, the
/// humidity after it.
pub fn classify(m: &Metrics) -> (class: &'static str)
    ensures
        class@ == class_of(*m),
{
    match m {
        Metrics { temp: None, .. } => "no temp data",
        Metrics { temp: Some(t), .. } if *t < 0 => "freezing",
        Metrics { temp: Some(t), .. } if *t > 60 => "overheat",
        Metrics { temp: Some(_), humidity: Some(h) } if *h > 80 => "humid",
        _ => "ok",
    }
}

/// A way to be connected.
#[derive(Debug, PartialEq, Eq)]
pub enum Connection {
    Wifi { ssid: String, strength: i32 },
    Ethernet { speed: u32 },
    Bluetooth(Option<String>),
}

/// The words for a connection.
pub open spec fn connection_text(c: Connection) -> Seq<char> {
    match c {
        Connection::Wifi { ssid, strength } => if strength < -80 {
            "wifi weak ("@ + ssid@ + ")"@
        } else {
            "wifi ok"@
        },
        Connection::Ethernet { speed } => if speed >= 1000 {
            "gb ethernet"@
        } else {
            "ethernet"@
        },
        Connection::Bluetooth(Some(name)) => "bt: "@ + name@,
        Connection::Bluetooth(None) => "bt: unknown"@,
    }
}

/// Words a connection.
pub fn describe(c: Connection) -> (text: String)
    ensures
        text@ == connection_text(c),
{
    match c {
        Connection::Wifi { ssid, strength } => {
            if strength < -80 {
                let mut text = String::from_str("wifi weak (");
                text.append(ssid.as_str());
                text.append(")");
                text
            } else {
                String::from_str("wifi ok")
            }
        },
        Connection::Ethernet { speed } => {
            if speed >= 1000 {
                String::from_str("gb ethernet")
            } else {
                String::from_str("ethernet")
            }
        },
        Connection::Bluetooth(b) => match b {
            Some(b) => {
                let mut text = String::from_str("bt: ");
                text.append(b.as_str());
                text
            },
            None => String::from_str("bt: unknown"),
        },
    }
}

/// A packet that may carry bytes.
#[derive(Debug, PartialEq, Eq)]
pub struct Packet {
    pub id: u32,
    pub data: Option<Vec<u8>>,
}

/// What a gateway receives.
#[derive(Debug, PartialEq, Eq)]
pub enum GatewayMsg {
    Data(Packet),
    Heartbeat { ts: u64 },
    Error(String),
}

/// The words for a message.
pub open spec fn message_text(msg: GatewayMsg) -> Seq<char> {
    match msg {
        GatewayMsg::Data(packet) => match packet.data {
            None => "empty packet"@,
            Some(bytes) => if packet.id == 0 {
                "invalid id"@
            } else if bytes@.len() == 0 {
                "no bytes"@
            } else {
                "packet "@ + decimal(packet.id as nat) + ": "@ + decimal(bytes@.len()) + " bytes"@
            },
        },
        GatewayMsg::Heartbeat { ts } => "hb "@ + decimal(ts as nat),
        GatewayMsg::Error(s) => "err: "@ + s@,
    }
}

/// Words a message: a packet without data is empty, one with the id 0 is
/// invalid, and one with data says how many bytes it carries.
pub fn handle(msg: GatewayMsg) -> (text: String)
    ensures
        text@ == message_text(msg),
{
    match msg {
        GatewayMsg::Data(Packet { data: None, .. }) => String::from_str("empty packet"),
        GatewayMsg::Data(Packet { id: 0, data: Some(_) }) => String::from_str("invalid id"),
        GatewayMsg::Data(Packet { id, data: Some(v) }) => {
            if v.len() == 0 {
                String::from_str("no bytes")
            } else {
                let mut text = String::from_str("packet ");
                append_u64(&mut text, id as u64);
                text.append(": ");
                append_u64(&mut text, v.len() as u64);
                text.append(" bytes");
                text
            }
        },
        GatewayMsg::Heartbeat { ts } => {
            let mut text = String::from_str("hb ");
            append_u64(&mut text, ts);
            text
        },
        GatewayMsg::Error(s) => {
            let mut text = String::from_str("err: ");
            text.append(s.as_str());
            text
        },
    }
}

} // verus!
