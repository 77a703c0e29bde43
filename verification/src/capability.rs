//! The interface that every allocator offers, whatever its parameters.

use vstd::prelude::*;

verus! {

/// An allocator that serves requests for bytes and takes releases.
///
/// An address is an offset into the allocator's buffer; `None` stands for
/// the null address.
pub trait MallocFree {
    /// The invariant that the operations need and keep.
    spec fn valid(&self) -> bool;

    /// Whether `malloc` may be asked for `size` bytes in this state.
    spec fn accepts(&self, size: usize) -> bool;

    /// Asks for `size` bytes; `None` says that the request was refused.
    fn malloc(&mut self, size: usize) -> (address: Option<usize>)
        requires
            old(self).valid(),
            old(self).accepts(size),
        ensures
            final(self).valid(),
    ;

    /// Gives one allocation back.
    fn free(&mut self, address: Option<usize>)
        requires
            old(self).valid(),
        ensures
            final(self).valid(),
    ;
}

} // verus!
