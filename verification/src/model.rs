//! The arena as a mathematical state machine.
//!
//! An arena is three counters; allocating and releasing are total functions
//! from one triple to the next. The executable arena is held to these
//! functions by the contracts of its operations.

use crate::rounding::round_up;
use vstd::prelude::*;

verus! {

/// The counters of an arena.
pub struct ArenaState {
    /// Allocations that have not been matched by a release.
    pub count: nat,
    /// Offset of the next free byte, which is also the number of bytes in use.
    pub head: nat,
    /// The largest value `head` has had.
    pub maximum_usage: nat,
}

/// One call made on an arena.
pub enum Operation {
    /// A request for the given number of bytes.
    Malloc(nat),
    /// A release.
    Free,
}

impl ArenaState {
    /// The state of a new arena.
    pub open spec fn empty() -> ArenaState {
        ArenaState { count: 0, head: 0, maximum_usage: 0 }
    }

    /// What holds of every state that an arena of `capacity` bytes can be in:
    /// the head stays inside the buffer and below the high-water mark, and
    /// an arena with nothing outstanding has its head at the start.
    pub open spec fn valid(self, capacity: nat) -> bool {
        &&& self.head <= self.maximum_usage
        &&& self.maximum_usage <= capacity
        &&& self.count == 0 ==> self.head == 0
    }

    /// Whether a request for `size` bytes can be served.
    pub open spec fn fits(self, size: nat, capacity: nat, alignment: nat) -> bool {
        self.head + round_up(size, alignment) <= capacity
    }

    /// The state after a request for `size` bytes.
    pub open spec fn malloc(self, size: nat, capacity: nat, alignment: nat) -> ArenaState {
        if self.fits(size, capacity, alignment) {
            let head = self.head + round_up(size, alignment);
            ArenaState {
                count: self.count + 1,
                head,
                maximum_usage: if self.maximum_usage < head {
                    head
                } else {
                    self.maximum_usage
                },
            }
        } else {
            self
        }
    }

    /// The state after a release.
    pub open spec fn free(self) -> ArenaState {
        if self.count == 0 {
            self
        } else if self.count == 1 {
            ArenaState { count: 0, head: 0, maximum_usage: self.maximum_usage }
        } else {
            ArenaState {
                count: (self.count - 1) as nat,
                head: self.head,
                maximum_usage: self.maximum_usage,
            }
        }
    }

    /// The state after one operation.
    pub open spec fn step(self, operation: Operation, capacity: nat, alignment: nat) -> ArenaState {
        match operation {
            Operation::Malloc(size) => self.malloc(size, capacity, alignment),
            Operation::Free => self.free(),
        }
    }

    /// The state after a sequence of operations, the first one first.
    pub open spec fn run(
        self,
        operations: Seq<Operation>,
        capacity: nat,
        alignment: nat,
    ) -> ArenaState
        decreases operations.len(),
    {
        if operations.len() == 0 {
            self
        } else {
            self.run(operations.drop_last(), capacity, alignment).step(
                operations.last(),
                capacity,
                alignment,
            )
        }
    }
}

} // verus!
