//! Callbacks that an arena can be given.
//!
//! A handler is a shared reference to a value that lives as long as the
//! program does, so installing one costs no allocation and binds no
//! lifetime to the arena.

use crate::status::Status;
use vstd::prelude::*;

verus! {

/// Told of every allocation, refusal and release, right after it happened.
pub trait OnChanged {
    /// Receives the arena's counters as they are after the event.
    fn changed(&self, status: Status)
        requires
            status.coherent(),
    ;
}

/// Told when an arena is disposed of while allocations are outstanding.
pub trait OnDropWithoutFree {
    /// Called once, with nothing to inspect.
    fn dropped_without_free(&self);
}

} // verus!
