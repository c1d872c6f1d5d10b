//! Whether work that needs a large stack can run on the current thread.
//!
//! A long-lived execution thread advertises the stack size it was spawned
//! with; every other thread advertises zero. Work asking for a stack of some
//! size runs in place only on a registered thread whose stack is at least
//! that large; anywhere else it runs on a fresh scoped thread.

use vstd::prelude::*;

verus! {

/// Decides whether work that asks for `requested_stack_size` bytes of stack
/// may run on a thread that advertises `registered_stack_size` (zero for a
/// thread that was not spawned as a long-lived execution thread).
pub fn runs_on_registered_stack(registered_stack_size: usize, requested_stack_size: usize) -> (in_place: bool)
    ensures
        in_place == (registered_stack_size != 0 && registered_stack_size >= requested_stack_size),
{
    registered_stack_size >= requested_stack_size && registered_stack_size != 0
}

} // verus!
