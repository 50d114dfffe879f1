//! The shutdown signal: fired once, observed by everyone, safe to fire again.

use vstd::prelude::*;

verus! {

/// The broadcast shutdown signal.
#[derive(Debug, Clone, Copy, PartialEq, Eq)]
pub struct ShutdownCoordinator {
    pub fired: bool,
}

impl ShutdownCoordinator {
    /// A signal that has not been fired.
    pub fn new() -> (coordinator: ShutdownCoordinator)
        ensures
            !coordinator.fired,
    {
        ShutdownCoordinator { fired: false }
    }

    /// Fires the signal. Returns whether this call was the one that fired it:
    /// a later call changes nothing and returns `false`.
    pub fn fire(&mut self) -> (first: bool)
        ensures
            final(self).fired,
            first == !old(self).fired,
    {
        let first = !self.fired;
        self.fired = true;
        first
    }

    /// Whether the signal has been fired.
    pub fn is_fired(&self) -> (fired: bool)
        ensures
            fired == self.fired,
    {
        self.fired
    }
}

} // verus!
