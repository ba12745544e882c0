//! The one alternate stack the processor switches to on a double fault.

use vstd::prelude::*;

verus! {

/// Slot of the interrupt stack table that holds the double-fault stack.
pub const DOUBLE_FAULT_IST_INDEX: u16 = 0;

/// Size in bytes of the stack reserved for double faults.
pub const DOUBLE_FAULT_STACK_SIZE: u64 = 4096 * 5;

/// The address the double-fault stack starts from, given the lowest address of
/// its memory: stacks grow downwards, so this is one past its highest byte. None
/// where that address does not fit in 64 bits.
pub fn double_fault_stack_top(stack_start: u64) -> (r: Option<u64>)
    ensures
        r == if stack_start + DOUBLE_FAULT_STACK_SIZE <= u64::MAX {
            Some((stack_start + DOUBLE_FAULT_STACK_SIZE) as u64)
        } else {
            None::<u64>
        },
{
    stack_start.checked_add(DOUBLE_FAULT_STACK_SIZE)
}

} // verus!
