//! The atomic primitive entry points: compare-and-swap and exchange
//! (test-and-set), one per operand width.
//!
//! Each entry point acquires the critical-section guard, performs a plain
//! read/compare/write sequence on the target memory cell, releases the guard
//! on every exit path, and returns the value read before any write. The
//! target cell is caller-owned memory, handed in by exclusive reference;
//! the caller's interrupt-enable state is handed in the same way and is
//! restored exactly on return.

use vstd::prelude::*;

use crate::interrupts::DisableInterrupts;
use crate::interrupts::InterruptState;
use crate::model::Op;
use crate::model::apply_op;

verus! {

/// Atomic compare-and-swap on a one-byte cell: if the cell holds `oldval`,
/// writes `newval` into it; returns the cell's contents before the
/// operation, whether or not the write occurred.
pub fn __sync_val_compare_and_swap_1(
    cpu: &mut InterruptState,
    cell: &mut u8,
    oldval: u8,
    newval: u8,
) -> (r: u8)
    ensures
        r == *old(cell),
        *final(cell) == (if *old(cell) == oldval {
            newval
        } else {
            *old(cell)
        }),
        (r, *final(cell)) == apply_op(
            *old(cell),
            (Op::CompareAndSwap { expected: oldval, replacement: newval }),
        ),
        final(cpu).enabled() == old(cpu).enabled(),
{
    let interrupts_disabled = DisableInterrupts::new(cpu);
    let startval: u8 = *cell;

    if startval == oldval {
        *cell = newval;
    }

    interrupts_disabled.release(cpu);
    startval
}

/// Atomic compare-and-swap on a four-byte cell: if the cell holds `oldval`,
/// writes `newval` into it; returns the cell's contents before the
/// operation, whether or not the write occurred.
pub fn __sync_val_compare_and_swap_4(
    cpu: &mut InterruptState,
    cell: &mut u32,
    oldval: u32,
    newval: u32,
) -> (r: u32)
    ensures
        r == *old(cell),
        *final(cell) == (if *old(cell) == oldval {
            newval
        } else {
            *old(cell)
        }),
        (r, *final(cell)) == apply_op(
            *old(cell),
            (Op::CompareAndSwap { expected: oldval, replacement: newval }),
        ),
        final(cpu).enabled() == old(cpu).enabled(),
{
    let interrupts_disabled = DisableInterrupts::new(cpu);
    let startval: u32 = *cell;

    if startval == oldval {
        *cell = newval;
    }

    interrupts_disabled.release(cpu);
    startval
}

/// Atomic exchange on a one-byte cell: writes `value` into the cell and
/// returns its previous contents.
///
/// Despite the traditional test-and-set name, any store value is accepted,
/// not only the constant 1. The guarantee is an acquire barrier, not a full
/// barrier: memory operations sequenced after the call cannot move before
/// it, but stores issued before it need not be globally visible on return.
pub fn __sync_lock_test_and_set_1(cpu: &mut InterruptState, cell: &mut u8, value: u8) -> (r: u8)
    ensures
        r == *old(cell),
        *final(cell) == value,
        (r, *final(cell)) == apply_op(*old(cell), (Op::Exchange { value })),
        final(cpu).enabled() == old(cpu).enabled(),
{
    let interrupts_disabled = DisableInterrupts::new(cpu);
    let startval: u8 = *cell;
    *cell = value;

    interrupts_disabled.release(cpu);
    startval
}

/// Atomic exchange on a four-byte cell: writes `value` into the cell and
/// returns its previous contents.
///
/// Despite the traditional test-and-set name, any store value is accepted,
/// not only the constant 1. The guarantee is an acquire barrier, not a full
/// barrier: memory operations sequenced after the call cannot move before
/// it, but stores issued before it need not be globally visible on return.
pub fn __sync_lock_test_and_set_4(cpu: &mut InterruptState, cell: &mut u32, value: u32) -> (r: u32)
    ensures
        r == *old(cell),
        *final(cell) == value,
        (r, *final(cell)) == apply_op(*old(cell), (Op::Exchange { value })),
        final(cpu).enabled() == old(cpu).enabled(),
{
    let interrupts_disabled = DisableInterrupts::new(cpu);
    let startval: u32 = *cell;
    *cell = value;

    interrupts_disabled.release(cpu);
    startval
}

} // verus!
