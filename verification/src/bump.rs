//! The arena.

use crate::capability::MallocFree;
use crate::hooks::OnChanged;
use crate::hooks::OnDropWithoutFree;
use crate::model::ArenaState;
use crate::rounding::checked_round_up;
use crate::rounding::round_up;
use crate::status::Action;
use crate::status::Status;
use vstd::prelude::*;

verus! {

/// An arena of `SIZE` bytes that allocates in units of `ALIGNMENT` bytes.
pub struct Bump<const SIZE: usize, const ALIGNMENT: usize> {
    count: usize,
    head: usize,
    /// The buffer that the offsets returned by `malloc` point into.
    pub heap: [u8; SIZE],
    maximum_usage: usize,
    on_drop_without_free: Option<&'static dyn OnDropWithoutFree>,
    on_changed: Option<&'static dyn OnChanged>,
    reported: Ghost<Seq<Status>>,
}

impl<const SIZE: usize, const ALIGNMENT: usize> View for Bump<SIZE, ALIGNMENT> {
    type V = ArenaState;

    /// The arena's counters.
    open spec fn view(&self) -> ArenaState {
        ArenaState {
            count: self.count() as nat,
            head: self.usage() as nat,
            maximum_usage: self.maximum_usage() as nat,
        }
    }
}

impl<const SIZE: usize, const ALIGNMENT: usize> Bump<SIZE, ALIGNMENT> {
    /// Allocations that no release has matched yet.
    pub closed spec fn count(&self) -> usize {
        self.count
    }

    /// Bytes in use: the offset of the next free byte.
    pub closed spec fn usage(&self) -> usize {
        self.head
    }

    /// The largest number of bytes that have been in use at once.
    pub closed spec fn maximum_usage(&self) -> usize {
        self.maximum_usage
    }

    /// The bytes of the buffer.
    pub closed spec fn buffer(&self) -> Seq<u8> {
        self.heap@
    }

    /// The handler that is told of leaks, if one is installed.
    pub closed spec fn leak_handler(&self) -> Option<&'static dyn OnDropWithoutFree> {
        self.on_drop_without_free
    }

    /// The handler that is told of changes, if one is installed.
    pub closed spec fn change_handler(&self) -> Option<&'static dyn OnChanged> {
        self.on_changed
    }

    /// Every snapshot that has been handed to a change handler, oldest first.
    pub closed spec fn reported(&self) -> Seq<Status> {
        self.reported@
    }

    /// The counters as a change handler is shown them for `action`.
    pub open spec fn snapshot(&self, action: Action) -> Status {
        Status {
            action,
            count: self.count(),
            usage: self.usage(),
            maximum_usage: self.maximum_usage(),
        }
    }

    /// What has been reported once this arena, which was `before`, has
    /// reported `action`: one more snapshot where a handler is installed,
    /// nothing more where none is.
    pub open spec fn reported_after(&self, before: &Self, action: Action) -> Seq<Status> {
        if before.change_handler() is Some {
            before.reported().push(self.snapshot(action))
        } else {
            before.reported()
        }
    }

    /// Whether the buffer and both handlers are those of `before`.
    pub open spec fn keeps_buffer_and_handlers(&self, before: &Self) -> bool {
        &&& self.buffer() == before.buffer()
        &&& self.leak_handler() == before.leak_handler()
        &&& self.change_handler() == before.change_handler()
    }

    /// An arena with nothing allocated, a zeroed buffer and no handlers:
    /// changes go unreported and a leak is tolerated in silence.
    pub fn new() -> (arena: Self)
        ensures
            arena@ == ArenaState::empty(),
            arena.valid(),
            arena.buffer() == Seq::new(SIZE as nat, |i: int| 0u8),
            arena.leak_handler() is None,
            arena.change_handler() is None,
            arena.reported() == Seq::<Status>::empty(),
    {
        Self {
            count: 0,
            head: 0,
            heap: [0; SIZE],
            maximum_usage: 0,
            on_drop_without_free: None,
            on_changed: None,
            reported: Ghost(Seq::empty()),
        }
    }

    /// The number of allocations that no release has matched yet.
    pub fn get_count(&self) -> (count: usize)
        ensures
            count == self.count(),
    {
        self.count
    }

    /// The number of bytes in use, which is the offset of the next free byte.
    pub fn get_usage(&self) -> (usage: usize)
        ensures
            usage == self.usage(),
    {
        self.head
    }

    /// The largest number of bytes that have been in use at once.
    pub fn get_maximum_usage(&self) -> (maximum_usage: usize)
        ensures
            maximum_usage == self.maximum_usage(),
    {
        self.maximum_usage
    }

    /// Installs the handler that `dispose` calls when allocations are
    /// still outstanding, in place of any earlier one.
    pub fn handle_drop_without_free(&mut self, handler: &'static dyn OnDropWithoutFree)
        ensures
            final(self).leak_handler() == Some(handler),
            final(self)@ == old(self)@,
            final(self).buffer() == old(self).buffer(),
            final(self).change_handler() == old(self).change_handler(),
            final(self).reported() == old(self).reported(),
    {
        let installed = Some(handler);
        self.on_drop_without_free = installed;
    }

    /// Installs the handler that is told of every allocation, refusal and
    /// release from now on, in place of any earlier one.
    pub fn handle_on_changed(&mut self, handler: &'static dyn OnChanged)
        ensures
            final(self).change_handler() == Some(handler),
            final(self)@ == old(self)@,
            final(self).buffer() == old(self).buffer(),
            final(self).leak_handler() == old(self).leak_handler(),
            final(self).reported() == old(self).reported(),
    {
        let installed = Some(handler);
        self.on_changed = installed;
    }

    /// Where the head would stand after a request for `size` bytes, if the
    /// request can be served.
    fn next_head(&self, size: usize) -> (next: Option<usize>)
        requires
            self.valid(),
            ALIGNMENT > 0,
        ensures
            next is Some <==> self@.fits(size as nat, SIZE as nat, ALIGNMENT as nat),
            next is Some ==> next->0 == self@.head + round_up(size as nat, ALIGNMENT as nat),
    {
        match checked_round_up(size, ALIGNMENT) {
            Some(rounded) => if rounded <= SIZE - self.head {
                Some(self.head + rounded)
            } else {
                None
            },
            None => None,
        }
    }

    /// Whether a request for `size` bytes would be served in this state.
    pub fn fits(&self, size: usize) -> (served: bool)
        requires
            self.valid(),
            ALIGNMENT > 0,
        ensures
            served == self@.fits(size as nat, SIZE as nat, ALIGNMENT as nat),
    {
        self.next_head(size).is_some()
    }

    /// The snapshot that a change handler is given for `action`.
    pub fn status(&self, action: Action) -> (status: Status)
        ensures
            status == self.snapshot(action),
    {
        Status {
            action,
            count: self.count,
            usage: self.head,
            maximum_usage: self.maximum_usage,
        }
    }

    /// Tells the change handler, if there is one, what just happened.
    fn changed(&mut self, action: Action)
        requires
            old(self).valid(),
            action == Action::Malloc ==> old(self)@.count > 0,
        ensures
            final(self)@ == old(self)@,
            final(self).keeps_buffer_and_handlers(old(self)),
            final(self).reported() == final(self).reported_after(old(self), action),
    {
        if let Some(handler) = self.on_changed {
            let status = self.status(action);
            self.reported = Ghost(self.reported@.push(status));
            handler.changed(status)
        }
    }

    /// Ends the arena's life. Where allocations are still outstanding this
    /// is a leak: the leak handler is called, once, if one is installed.
    /// The result says whether there was a leak.
    pub fn dispose(self) -> (leaked: bool)
        ensures
            leaked == (self.count() > 0),
    {
        if self.count > 0 {
            if let Some(handler) = self.on_drop_without_free {
                handler.dropped_without_free();
            }
            true
        } else {
            false
        }
    }
}

impl<const SIZE: usize, const ALIGNMENT: usize> MallocFree for Bump<SIZE, ALIGNMENT> {
    open spec fn valid(&self) -> bool {
        self@.valid(SIZE as nat)
    }

    /// A request is accepted unless the granularity is zero or serving it
    /// would take the count of outstanding allocations past the machine word.
    open spec fn accepts(&self, size: usize) -> bool {
        &&& ALIGNMENT > 0
        &&& self@.fits(size as nat, SIZE as nat, ALIGNMENT as nat) ==> self.count() < usize::MAX
    }

    /// Rounds `size` up to a multiple of `ALIGNMENT` and carves that many
    /// bytes off the free end of the buffer. The request is refused exactly
    /// when they do not fit; a refusal changes no counter. A request for
    /// zero bytes is served like any other and counts as an allocation.
    /// The change handler is told of the allocation or of the refusal.
    fn malloc(&mut self, size: usize) -> (address: Option<usize>)
        ensures
            address is None <==> old(self)@.head + round_up(size as nat, ALIGNMENT as nat) > SIZE,
            address is Some ==> address == Some(old(self).usage()),
            final(self)@ == old(self)@.malloc(size as nat, SIZE as nat, ALIGNMENT as nat),
            address is None ==> final(self)@ == old(self)@,
            old(self)@.maximum_usage <= final(self)@.maximum_usage,
            final(self).keeps_buffer_and_handlers(old(self)),
            final(self).reported() == final(self).reported_after(
                old(self),
                if address is Some {
                    Action::Malloc
                } else {
                    Action::Error
                },
            ),
    {
        match self.next_head(size) {
            None => {
                self.changed(Action::Error);
                None
            },
            Some(next_head) => {
                let result: usize = self.head;
                self.head = next_head;
                if self.maximum_usage < self.head {
                    self.maximum_usage = self.head;
                }
                self.count = self.count + 1;
                self.changed(Action::Malloc);
                Some(result)
            },
        }
    }

    /// Takes one allocation back, whichever it is: the address is not
    /// looked at. The release of the last outstanding allocation makes the
    /// whole buffer free again; a release with nothing outstanding changes
    /// no counter. The change handler is told of the release either way.
    fn free(&mut self, address: Option<usize>)
        ensures
            final(self)@ == old(self)@.free(),
            final(self)@.count == 0 ==> final(self)@.head == 0,
            old(self)@.count == 0 ==> final(self)@ == old(self)@,
            final(self)@.maximum_usage == old(self)@.maximum_usage,
            final(self).keeps_buffer_and_handlers(old(self)),
            final(self).reported() == final(self).reported_after(old(self), Action::Free),
    {
        if self.count > 0 {
            self.count = self.count - 1;
            if self.count == 0 {
                self.head = 0;
            }
        }
        self.changed(Action::Free);
    }
}

} // verus!
