//! What the broker listener publishes for a change: the topic, and the
//! fields of the message body.

use crate::store::{DeviceId, Reading, StateChange};
use crate::text::{decimal, render_u64};
use vstd::prelude::*;
use vstd::string::StringExecFns;

verus! {

/// A message for the broker. The body is made of the id, the reading where
/// there is one, and the time of publishing, which the publisher adds.
#[derive(Debug, Clone, PartialEq, Eq)]
pub struct BrokerMessage {
    pub topic: String,
    pub id: DeviceId,
    pub value: Option<Reading>,
}

/// The last segment of the topic for `change`.
pub open spec fn topic_suffix(change: StateChange) -> Seq<char> {
    match change {
        StateChange::Created { .. } => "/created"@,
        StateChange::Updated { .. } => "/value"@,
        StateChange::Removed { .. } => "/deleted"@,
    }
}

/// The device that `change` is about.
pub open spec fn subject(change: StateChange) -> DeviceId {
    match change {
        StateChange::Created { id } => id,
        StateChange::Updated { id, .. } => id,
        StateChange::Removed { id } => id,
    }
}

/// The topic for `change`: `devices/`, the id in decimal, and the segment
/// that names the kind of change.
pub open spec fn topic_of(change: StateChange) -> Seq<char> {
    "devices/"@ + decimal(subject(change) as nat) + topic_suffix(change)
}

/// Whether `change` is published at all: an update without a reading is not.
pub open spec fn published(change: StateChange) -> bool {
    !(change matches StateChange::Updated { value: None, .. })
}

/// The topic on which `change` is published.
pub fn topic_for(change: StateChange) -> (topic: String)
    ensures
        topic@ == topic_of(change),
{
    let mut topic = String::from_str("devices/");
    match change {
        StateChange::Created { id } => {
            topic.append(render_u64(id as u64).as_str());
            topic.append("/created");
        },
        StateChange::Updated { id, .. } => {
            topic.append(render_u64(id as u64).as_str());
            topic.append("/value");
        },
        StateChange::Removed { id } => {
            topic.append(render_u64(id as u64).as_str());
            topic.append("/deleted");
        },
    }
    topic
}

/// The message to publish for `change`, or `None` where nothing is
/// published.
pub fn message_for(change: StateChange) -> (message: Option<BrokerMessage>)
    ensures
        message is Some <==> published(change),
        message matches Some(m) ==> {
            &&& m.topic@ == topic_of(change)
            &&& m.id == subject(change)
            &&& m.value == (match change {
                StateChange::Updated { value, .. } => value,
                _ => None,
            })
        },
{
    match change {
        StateChange::Created { id } => Some(
            BrokerMessage { topic: topic_for(change), id, value: None },
        ),
        StateChange::Updated { id, value } => match value {
            Some(_) => Some(BrokerMessage { topic: topic_for(change), id, value }),
            None => None,
        },
        StateChange::Removed { id } => Some(
            BrokerMessage { topic: topic_for(change), id, value: None },
        ),
    }
}

} // verus!
