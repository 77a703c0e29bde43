//! A fixed-capacity bump arena for targets without a general-purpose heap.
//!
//! The arena hands out regions of a buffer it owns by advancing an offset,
//! counts the regions that are outstanding, and makes the whole buffer
//! available again once the last of them has been given back.
//!
//! An address is an offset into the arena's buffer, and `None` is the null
//! address. Handlers are trait objects: a change handler is told of every
//! event, a leak handler of an arena that is disposed of with allocations
//! outstanding.

pub mod bump;
pub mod capability;
pub mod hooks;
pub mod laws;
pub mod model;
pub mod rounding;
pub mod status;

pub use bump::Bump;
pub use capability::MallocFree;
pub use hooks::OnChanged;
pub use hooks::OnDropWithoutFree;
pub use status::Action;
pub use status::Status;
