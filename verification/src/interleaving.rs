//! Mutual exclusion under interleaving with an interrupt handler.
//!
//! A primitive runs as four micro-steps on the current core: acquire the
//! guard, read the cell, write the cell (or skip the write, for a failed
//! compare-and-swap), release the guard. A pending interrupt whose handler
//! runs its own primitive on the same cell may fire between any two
//! micro-steps — but only while interrupts are deliverable, and the guard
//! suppresses them from acquisition to release. [`interleaved_run`] gives
//! the combined outcome mechanically for every fire position, including the
//! dangerous ones inside the guarded region, where the handler's update
//! could be lost to a write based on a stale read.
//! [`lemma_mutual_exclusion`] then shows that at every position where the
//! interrupt can actually be delivered, the outcome equals some total
//! ordering of the two calls: no lost update, no torn result.

use vstd::prelude::*;

use crate::model::Op;
use crate::model::apply_op;

verus! {

/// The number of micro-steps of one guarded primitive: acquire, read,
/// write (possibly skipped), release. A fire position `k` means the
/// interrupt fires after `k` of them have completed.
pub open spec fn micro_steps() -> nat {
    4
}

/// Whether an interrupt can be delivered after `k` micro-steps of a
/// primitive that started with interrupt-enable state `enabled0`: only
/// outside the guarded region (before the acquire or after the release),
/// and only if interrupts were enabled there at all — the release restores
/// exactly the state the acquire found.
pub open spec fn deliverable(enabled0: bool, k: nat) -> bool {
    enabled0 && (k == 0 || k == micro_steps())
}

/// The cell value the main primitive's read observes when the interrupt
/// fires after `k` micro-steps: the handler's result if it ran before the
/// read, the initial value otherwise.
pub open spec fn main_observed<T>(v0: T, intr: Op<T>, k: nat) -> T {
    if k <= 1 {
        apply_op(v0, intr).1
    } else {
        v0
    }
}

/// The cell value the interrupt handler observes when it fires after `k`
/// micro-steps of the main primitive: the main primitive's result once its
/// write step has run, the initial value before that.
pub open spec fn intr_observed<T>(v0: T, main: Op<T>, k: nat) -> T {
    if k <= 2 {
        v0
    } else {
        apply_op(v0, main).1
    }
}

/// The cell value left behind by the interleaving. At `k <= 1` the handler
/// ran wholly before the main read; at `k >= 3` wholly after the main
/// write. At `k == 2` — between the main primitive's read and its write —
/// the main primitive decides from its stale read of `v0` and its write,
/// when it happens, clobbers the handler's update.
pub open spec fn final_value<T>(v0: T, main: Op<T>, intr: Op<T>, k: nat) -> T {
    if k <= 1 {
        apply_op(apply_op(v0, intr).1, main).1
    } else if k == 2 {
        match main {
            Op::CompareAndSwap { expected, replacement } => if v0 == expected {
                replacement
            } else {
                apply_op(v0, intr).1
            },
            Op::Exchange { value } => value,
        }
    } else {
        apply_op(apply_op(v0, main).1, intr).1
    }
}

/// The combined outcome of the main primitive and an interrupt handler's
/// primitive on one cell holding `v0`, with the interrupt firing after `k`
/// micro-steps: the main call's returned previous value, the handler's
/// returned previous value, and the value the cell holds at the end.
pub open spec fn interleaved_run<T>(v0: T, main: Op<T>, intr: Op<T>, k: nat) -> (T, T, T) {
    (main_observed(v0, intr, k), intr_observed(v0, main, k), final_value(v0, main, intr, k))
}

/// The outcome of running the handler's primitive to completion and then
/// the main primitive, as one total order: the main call's returned
/// previous value, the handler's, and the final cell value.
pub open spec fn serial_intr_first<T>(v0: T, main: Op<T>, intr: Op<T>) -> (T, T, T) {
    (apply_op(apply_op(v0, intr).1, main).0, apply_op(v0, intr).0, apply_op(
        apply_op(v0, intr).1,
        main,
    ).1)
}

/// The outcome of running the main primitive to completion and then the
/// handler's primitive, as one total order: the main call's returned
/// previous value, the handler's, and the final cell value.
pub open spec fn serial_main_first<T>(v0: T, main: Op<T>, intr: Op<T>) -> (T, T, T) {
    (apply_op(v0, main).0, apply_op(apply_op(v0, main).1, intr).0, apply_op(
        apply_op(v0, main).1,
        intr,
    ).1)
}

/// The guard masks the interrupt for the whole guarded region: after the
/// acquire and before the release, the interrupt cannot be delivered,
/// whatever the interrupt-enable state was when the primitive started. In
/// particular the lost-update position — between the read and the write —
/// is unreachable.
pub proof fn lemma_guard_masks_mid_operation(enabled0: bool, k: nat)
    requires
        1 <= k < micro_steps(),
    ensures
        !deliverable(enabled0, k),
{
}

/// Why the masking is load-bearing: at the position between the main
/// primitive's read and its write — reachable only if the guard failed to
/// mask — a compare-and-swap deciding on its stale read clobbers the
/// handler's update, an outcome matching no total ordering of the two
/// calls. The guarded region is masked exactly where it must be.
pub proof fn lemma_lost_update_at_masked_position()
    ensures
        ({
            let main = (Op::<u8>::CompareAndSwap { expected: 0, replacement: 1 });
            let intr = (Op::<u8>::Exchange { value: 2 });
            interleaved_run(0u8, main, intr, 2) != serial_intr_first(0u8, main, intr)
                && interleaved_run(0u8, main, intr, 2) != serial_main_first(0u8, main, intr)
        }),
{
}

/// Mutual exclusion under interleaving: wherever the pending interrupt can
/// actually be delivered, the combined effect of the two primitives on the
/// cell — both returned values and the final contents — equals some total
/// ordering of the two calls.
pub proof fn lemma_mutual_exclusion<T>(v0: T, enabled0: bool, main: Op<T>, intr: Op<T>, k: nat)
    requires
        k <= micro_steps(),
        deliverable(enabled0, k),
    ensures
        interleaved_run(v0, main, intr, k) == serial_intr_first(v0, main, intr)
            || interleaved_run(v0, main, intr, k) == serial_main_first(v0, main, intr),
{
}

} // verus!
