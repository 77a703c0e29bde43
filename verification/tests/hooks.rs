use bump_arena::Action;
use bump_arena::Bump;
use bump_arena::MallocFree;
use bump_arena::OnChanged;
use bump_arena::OnDropWithoutFree;
use bump_arena::Status;
use std::cell::Cell;
use std::cell::RefCell;

struct Recorder {
    seen: RefCell<Vec<Status>>,
}

impl OnChanged for Recorder {
    fn changed(&self, status: Status) {
        self.seen.borrow_mut().push(status);
    }
}

struct LeakCounter {
    calls: Cell<usize>,
}

impl OnDropWithoutFree for LeakCounter {
    fn dropped_without_free(&self) {
        self.calls.set(self.calls.get() + 1);
    }
}

fn recorder() -> &'static Recorder {
    Box::leak(Box::new(Recorder { seen: RefCell::new(Vec::new()) }))
}

fn leak_counter() -> &'static LeakCounter {
    Box::leak(Box::new(LeakCounter { calls: Cell::new(0) }))
}

fn snapshot(action: Action, count: usize, usage: usize, maximum_usage: usize) -> Status {
    Status { action, count, usage, maximum_usage }
}

#[test]
fn change_handler_is_told_of_every_event() {
    let events = recorder();
    let mut bump = Bump::<1024, 8>::new();
    bump.handle_on_changed(events);

    bump.malloc(20);
    bump.malloc(20);
    bump.malloc(1024);
    bump.free(Some(0));
    bump.free(Some(0));
    bump.free(Some(0));

    let seen = events.seen.borrow();
    assert_eq!(seen.len(), 6);
    assert_eq!(seen[0], snapshot(Action::Malloc, 1, 24, 24));
    assert_eq!(seen[1], snapshot(Action::Malloc, 2, 48, 48));
    assert_eq!(seen[2], snapshot(Action::Error, 2, 48, 48));
    assert_eq!(seen[3], snapshot(Action::Free, 1, 48, 48));
    assert_eq!(seen[4], snapshot(Action::Free, 0, 0, 48));
    assert_eq!(seen[5], snapshot(Action::Free, 0, 0, 48));
}

#[test]
fn nothing_is_reported_before_a_handler_is_installed() {
    let events = recorder();
    let mut bump = Bump::<64, 8>::new();
    bump.malloc(8);
    bump.handle_on_changed(events);
    assert_eq!(events.seen.borrow().len(), 0);
    bump.malloc(8);
    assert_eq!(events.seen.borrow().len(), 1);
    assert_eq!(events.seen.borrow()[0], snapshot(Action::Malloc, 2, 16, 16));
}

#[test]
fn installing_a_handler_leaves_the_counters_alone() {
    let mut bump = Bump::<64, 8>::new();
    bump.malloc(24);
    bump.handle_on_changed(recorder());
    bump.handle_drop_without_free(leak_counter());
    assert_eq!(bump.get_count(), 1);
    assert_eq!(bump.get_usage(), 24);
    assert_eq!(bump.get_maximum_usage(), 24);
}

#[test]
fn later_change_handler_replaces_the_earlier_one() {
    let first = recorder();
    let second = recorder();
    let mut bump = Bump::<64, 8>::new();
    bump.handle_on_changed(first);
    bump.malloc(1);
    bump.handle_on_changed(second);
    bump.free(None);
    assert_eq!(first.seen.borrow().len(), 1);
    assert_eq!(first.seen.borrow()[0], snapshot(Action::Malloc, 1, 8, 8));
    assert_eq!(second.seen.borrow().len(), 1);
    assert_eq!(second.seen.borrow()[0], snapshot(Action::Free, 0, 0, 8));
}

#[test]
fn every_snapshot_is_coherent() {
    let events = recorder();
    let mut bump = Bump::<128, 16>::new();
    bump.handle_on_changed(events);
    let sizes: [usize; 8] = [0, 1, 16, 17, 100, 64, 0, 33];
    for size in sizes {
        bump.malloc(size);
        if size % 2 == 1 {
            bump.free(None);
        }
    }
    for _ in 0..10 {
        bump.free(None);
    }
    let seen = events.seen.borrow();
    assert_eq!(seen.len(), 8 + 3 + 10);
    let mut last_maximum = 0;
    for status in seen.iter() {
        assert!(status.usage <= status.maximum_usage);
        assert!(status.maximum_usage <= 128);
        assert!(status.maximum_usage >= last_maximum);
        if status.count == 0 {
            assert_eq!(status.usage, 0);
        }
        if status.action == Action::Malloc {
            assert!(status.count > 0);
        }
        last_maximum = status.maximum_usage;
    }
}

#[test]
fn leak_handler_is_called_once_for_a_leak() {
    let leaks = leak_counter();
    let mut bump = Bump::<64, 8>::new();
    bump.handle_drop_without_free(leaks);
    bump.malloc(8);
    bump.malloc(8);
    bump.free(None);
    assert_eq!(leaks.calls.get(), 0);
    assert!(bump.dispose());
    assert_eq!(leaks.calls.get(), 1);
}

#[test]
fn leak_handler_is_not_called_when_everything_was_released() {
    let leaks = leak_counter();
    let mut bump = Bump::<64, 8>::new();
    bump.handle_drop_without_free(leaks);
    bump.malloc(8);
    bump.free(None);
    assert!(!bump.dispose());
    assert_eq!(leaks.calls.get(), 0);
}

#[test]
fn leak_handler_is_not_called_for_an_unused_arena() {
    let leaks = leak_counter();
    let mut bump = Bump::<64, 8>::new();
    bump.handle_drop_without_free(leaks);
    assert!(!bump.dispose());
    assert_eq!(leaks.calls.get(), 0);
}

#[test]
fn zero_size_allocation_left_outstanding_is_a_leak() {
    let leaks = leak_counter();
    let mut bump = Bump::<64, 8>::new();
    bump.handle_drop_without_free(leaks);
    bump.malloc(0);
    assert_eq!(bump.get_usage(), 0);
    assert!(bump.dispose());
    assert_eq!(leaks.calls.get(), 1);
}

#[test]
fn leak_without_a_handler_is_tolerated() {
    let mut bump = Bump::<64, 8>::new();
    bump.malloc(8);
    assert!(bump.dispose());
}

#[test]
fn later_leak_handler_replaces_the_earlier_one() {
    let first = leak_counter();
    let second = leak_counter();
    let mut bump = Bump::<64, 8>::new();
    bump.handle_drop_without_free(first);
    bump.handle_drop_without_free(second);
    bump.malloc(8);
    assert!(bump.dispose());
    assert_eq!(first.calls.get(), 0);
    assert_eq!(second.calls.get(), 1);
}

#[test]
fn change_handler_is_not_told_of_a_disposal() {
    let events = recorder();
    let mut bump = Bump::<64, 8>::new();
    bump.handle_on_changed(events);
    bump.malloc(8);
    assert!(bump.dispose());
    assert_eq!(events.seen.borrow().len(), 1);
}
