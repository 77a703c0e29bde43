//! What a change handler is told.

use vstd::prelude::*;

verus! {

/// The kind of event that a snapshot reports.
#[derive(Debug, Clone, Copy, PartialEq, Eq)]
pub enum Action {
    /// A release, whether or not anything was outstanding.
    Free,
    /// An allocation that was served.
    Malloc,
    /// An allocation that was refused for want of space.
    Error,
}

/// The arena's counters right after an event.
#[derive(Debug, Clone, Copy, PartialEq, Eq)]
pub struct Status {
    /// What happened.
    pub action: Action,
    /// Allocations outstanding.
    pub count: usize,
    /// Bytes in use.
    pub usage: usize,
    /// The largest number of bytes that have been in use.
    pub maximum_usage: usize,
}

impl Status {
    /// What a handler may rely on in every snapshot it is given: usage
    /// never exceeds the high-water mark, nothing is in use when nothing is
    /// outstanding, and a served allocation leaves something outstanding.
    pub open spec fn coherent(self) -> bool {
        &&& self.usage <= self.maximum_usage
        &&& self.count == 0 ==> self.usage == 0
        &&& self.action == Action::Malloc ==> self.count > 0
    }
}

} // verus!
