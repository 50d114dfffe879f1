//! Destructuring structs behind references and inside events.

use crate::text::{append_i64, append_u64, decimal, signed_decimal};
use vstd::prelude::*;
use vstd::string::StringExecFns;

verus! {

/// A sensor with its last value.
#[derive(Debug, Clone, Copy, PartialEq, Eq)]
pub struct Sensor {
    pub id: u32,
    pub value: i32,
    pub active: bool,
}

/// The words for a sensor.
pub open spec fn sensor_text(sensor: Sensor) -> Seq<char> {
    if !sensor.active {
        "Sensor "@ + decimal(sensor.id as nat) + " inactive"@
    } else if sensor.value < 0 {
        "Sensor "@ + decimal(sensor.id as nat) + " error"@
    } else {
        "Sensor "@ + decimal(sensor.id as nat) + ": "@ + signed_decimal(sensor.value as int)
    }
}

/// Words a sensor: inactive, in error where its value is negative, or with
/// its value.
pub fn describe(sensor: &Sensor) -> (text: String)
    ensures
        text@ == sensor_text(*sensor),
{
    let Sensor { id, value, active } = *sensor;
    let mut text = String::from_str("Sensor ");
    append_u64(&mut text, id as u64);
    if !active {
        text.append(" inactive");
        return text;
    }
    if value < 0 {
        text.append(" error");
        return text;
    }
    text.append(": ");
    append_i64(&mut text, value as i64);
    text
}

/// Settings with a name.
#[derive(Debug)]
pub struct Config {
    pub name: String,
    pub retries: u32,
    pub enabled: bool,
}

/// Whether the settings are switched on.
pub fn is_enabled(cfg: &Config) -> (enabled: bool)
    ensures
        enabled == cfg.enabled,
{
    let Config { retries: _, enabled, name: _ } = cfg;
    *enabled
}

/// The name of the settings, which are given away.
pub fn take_name(cfg: Config) -> (name: String)
    ensures
        name == cfg.name,
{
    cfg.name
}

/// A reading of a sensor at a time.
#[derive(Debug, Clone, Copy, PartialEq, Eq)]
pub struct SensorData {
    pub id: u32,
    pub value: i32,
    pub timestamp: u64,
}

/// What a gateway hears.
#[derive(Debug)]
pub enum GatewayEvent {
    SensorUpdate(SensorData),
    ConnectionLost { id: u32, reason: String },
    Shutdown,
}

/// The words for an event.
pub open spec fn event_text(ev: GatewayEvent) -> Seq<char> {
    match ev {
        GatewayEvent::SensorUpdate(data) => if data.value < 0 {
            "Sensor "@ + decimal(data.id as nat) + " invalid"@
        } else if data.value > 1000 {
            "Sensor "@ + decimal(data.id as nat) + " overflow"@
        } else {
            "Sensor "@ + decimal(data.id as nat) + ": "@ + signed_decimal(data.value as int)
                + " at "@ + decimal(data.timestamp as nat)
        },
        GatewayEvent::ConnectionLost { id, reason } => "Lost "@ + decimal(id as nat) + ": "@
            + reason@,
        GatewayEvent::Shutdown => "Shutting down"@,
    }
}

/// Words an event: a reading below zero is invalid, one above a thousand an
/// overflow.
pub fn handle(ev: GatewayEvent) -> (text: String)
    ensures
        text@ == event_text(ev),
{
    match ev {
        GatewayEvent::SensorUpdate(SensorData { id, value, timestamp }) => {
            let mut text = String::from_str("Sensor ");
            append_u64(&mut text, id as u64);
            if value < 0 {
                text.append(" invalid");
            } else if value > 1000 {
                text.append(" overflow");
            } else {
                text.append(": ");
                append_i64(&mut text, value as i64);
                text.append(" at ");
                append_u64(&mut text, timestamp);
            }
            text
        },
        GatewayEvent::ConnectionLost { id, reason } => {
            let mut text = String::from_str("Lost ");
            append_u64(&mut text, id as u64);
            text.append(": ");
            text.append(reason.as_str());
            text
        },
        GatewayEvent::Shutdown => String::from_str("Shutting down"),
    }
}

} // verus!
