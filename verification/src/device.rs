//! Devices with integer values, as a plain list holds them.

use vstd::prelude::*;

verus! {

/// A device with its current value.
#[derive(Debug, Clone, Copy, PartialEq, Eq)]
pub struct Device {
    pub id: u32,
    pub value: i32,
}

/// A device as a request names it.
#[derive(Debug, Clone, Copy, PartialEq, Eq)]
pub struct DeviceInput {
    pub id: u32,
    pub value: i32,
}

} // verus!
