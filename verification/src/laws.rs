//! What holds of every arena, whatever is asked of it.
//!
//! The laws are stated over the state machine that the contracts of the
//! arena's operations refer to, so each of them holds of the executable
//! arena too.

use crate::model::ArenaState;
use crate::model::Operation;
use crate::rounding::round_up;
use vstd::prelude::*;

verus! {

/// An allocation, served or refused, leaves a valid state valid, and the
/// high-water mark where it was or higher.
pub proof fn lemma_malloc_keeps_valid(state: ArenaState, size: nat, capacity: nat, alignment: nat)
    requires
        state.valid(capacity),
    ensures
        state.malloc(size, capacity, alignment).valid(capacity),
        state.maximum_usage <= state.malloc(size, capacity, alignment).maximum_usage,
{
}

/// A release leaves a valid state valid and the high-water mark untouched.
pub proof fn lemma_free_keeps_valid(state: ArenaState, capacity: nat)
    requires
        state.valid(capacity),
    ensures
        state.free().valid(capacity),
        state.free().maximum_usage == state.maximum_usage,
{
}

/// A request is refused exactly when the rounded size would take the head
/// past the end of the buffer, and a refusal changes nothing.
pub proof fn lemma_refusal_changes_nothing(
    state: ArenaState,
    size: nat,
    capacity: nat,
    alignment: nat,
)
    ensures
        !state.fits(size, capacity, alignment) <==> state.head + round_up(size, alignment)
            > capacity,
        !state.fits(size, capacity, alignment) ==> state.malloc(size, capacity, alignment)
            == state,
{
}

/// A request for zero bytes is always served: the head stays where it is
/// and one more allocation is outstanding.
pub proof fn lemma_zero_size_is_served(state: ArenaState, capacity: nat, alignment: nat)
    requires
        state.valid(capacity),
        alignment > 0,
    ensures
        state.fits(0, capacity, alignment),
        state.malloc(0, capacity, alignment).head == state.head,
        state.malloc(0, capacity, alignment).count == state.count + 1,
        state.malloc(0, capacity, alignment).maximum_usage == state.maximum_usage,
{
    assert(round_up(0, alignment) == 0) by {
        let a = alignment as int;
        vstd::arithmetic::div_mod::lemma_fundamental_div_mod_converse(a - 1, a, 0, a - 1);
    }
}

/// The release of the last outstanding allocation puts the head back at the
/// start, wherever it was.
pub proof fn lemma_last_release_resets_head(state: ArenaState)
    requires
        state.count == 1,
    ensures
        state.free().count == 0,
        state.free().head == 0,
{
}

/// A release with nothing outstanding changes nothing.
pub proof fn lemma_release_of_nothing_changes_nothing(state: ArenaState)
    requires
        state.count == 0,
    ensures
        state.free() == state,
{
}

/// Whatever sequence of operations a valid arena goes through, it ends in a
/// valid state: the head is within the buffer, the high-water mark is within
/// the buffer and not below the head, and the head is at the start whenever
/// nothing is outstanding.
pub proof fn lemma_every_run_keeps_valid(
    state: ArenaState,
    operations: Seq<Operation>,
    capacity: nat,
    alignment: nat,
)
    requires
        state.valid(capacity),
    ensures
        state.run(operations, capacity, alignment).valid(capacity),
    decreases operations.len(),
{
    if operations.len() > 0 {
        let before = state.run(operations.drop_last(), capacity, alignment);
        lemma_every_run_keeps_valid(state, operations.drop_last(), capacity, alignment);
        match operations.last() {
            Operation::Malloc(size) => lemma_malloc_keeps_valid(before, size, capacity, alignment),
            Operation::Free => lemma_free_keeps_valid(before, capacity),
        }
    }
}

/// Every state that a new arena can reach is valid.
pub proof fn lemma_reachable_states_are_valid(
    operations: Seq<Operation>,
    capacity: nat,
    alignment: nat,
)
    ensures
        ArenaState::empty().run(operations, capacity, alignment).valid(capacity),
{
    lemma_every_run_keeps_valid(ArenaState::empty(), operations, capacity, alignment);
}

/// The high-water mark never falls: after any further operations it is
/// where it was or higher.
pub proof fn lemma_high_water_mark_never_falls(
    state: ArenaState,
    operations: Seq<Operation>,
    capacity: nat,
    alignment: nat,
)
    ensures
        state.maximum_usage <= state.run(operations, capacity, alignment).maximum_usage,
    decreases operations.len(),
{
    if operations.len() > 0 {
        lemma_high_water_mark_never_falls(state, operations.drop_last(), capacity, alignment);
    }
}

} // verus!
