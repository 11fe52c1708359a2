//! The stack that is reserved for the double fault handler.
//!
//! A double fault may be raised because the kernel stack itself is unusable.
//! Its handler therefore runs on a stack of its own, which the CPU finds
//! through a slot of the interrupt stack table.

use vstd::prelude::*;

verus! {

/// Slot of the interrupt stack table that holds the double fault stack.
pub const DOUBLE_FAULT_IST_INDEX: u16 = 0;

/// Number of slots of the interrupt stack table.
pub const IST_SLOTS: usize = 7;

/// Size of the double fault stack in bytes.
pub const STACK_SIZE: u64 = 4096 * 5;

/// The initial stack pointer of a stack that starts at `stack_start`.
/// Stacks grow downward, so it is the address just past the stack's end.
pub open spec fn stack_top(stack_start: u64) -> int {
    stack_start + STACK_SIZE
}

/// The interrupt stack table: for each slot the initial stack pointer of a
/// stack, or zero for a slot that is not in use.
#[derive(Clone, Copy, Debug, PartialEq, Eq)]
pub struct InterruptStackTable {
    pub slots: [u64; IST_SLOTS],
}

impl InterruptStackTable {
    /// The table of `init` for a stack at `stack_start`: the double fault
    /// slot points at the top of the stack, the other slots are unused.
    pub open spec fn reserves(self, stack_start: u64) -> bool {
        forall|slot: int|
            0 <= slot < IST_SLOTS ==> #[trigger] self.slots@[slot] == if slot
                == DOUBLE_FAULT_IST_INDEX {
                stack_top(stack_start)
            } else {
                0
            }
    }
}

/// Builds the interrupt stack table for a double fault stack of
/// [`STACK_SIZE`] bytes that starts at `stack_start`. There is no table for
/// a stack that would reach past the end of the address space.
pub fn init(stack_start: u64) -> (table: Option<InterruptStackTable>)
    ensures
        table is Some <==> stack_top(stack_start) <= u64::MAX,
        table matches Some(t) ==> t.reserves(stack_start),
{
    match stack_start.checked_add(STACK_SIZE) {
        Some(top) => {
            let mut slots: [u64; IST_SLOTS] = [0u64; IST_SLOTS];
            slots[DOUBLE_FAULT_IST_INDEX as usize] = top;
            Some(InterruptStackTable { slots })
        },
        None => None,
    }
}

} // verus!
