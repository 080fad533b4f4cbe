//! The mathematical model of one atomic primitive's effect on a memory cell.
//!
//! A primitive is described by an [`Op`]; [`apply_op`] gives the value it
//! returns and the value it leaves in the cell, as a function of the value
//! the cell held when the operation ran. The executable entry points promise
//! exactly this effect, and the laws below pin the model down on every value.

use vstd::prelude::*;

verus! {

/// One atomic read-modify-write operation, described by its operands.
///
/// The type of the operands is the cell's width: `u8` for the one-byte
/// entry points, `u32` for the four-byte ones, and any further width the
/// target's instruction lowering may need.
pub enum Op<T> {
    /// Write `replacement` only if the cell holds `expected`.
    CompareAndSwap { expected: T, replacement: T },
    /// Write `value` unconditionally.
    Exchange { value: T },
}

/// The effect of running `op` on a cell holding `v`: the pair of the value
/// the operation returns (always the value read, before any write) and the
/// value the cell holds afterwards.
pub open spec fn apply_op<T>(v: T, op: Op<T>) -> (T, T) {
    match op {
        Op::CompareAndSwap { expected, replacement } => (
            v,
            if v == expected {
                replacement
            } else {
                v
            },
        ),
        Op::Exchange { value } => (v, value),
    }
}

/// Compare-and-swap success: on a cell holding `v`, a compare-and-swap that
/// expects `v` returns `v` and leaves `w` in the cell.
pub proof fn lemma_cas_success<T>(v: T, w: T)
    ensures
        apply_op(v, (Op::CompareAndSwap { expected: v, replacement: w })) == (v, w),
{
}

/// Compare-and-swap failure: on a cell holding `v`, a compare-and-swap that
/// expects `e != v` returns `v` and leaves the cell unchanged.
pub proof fn lemma_cas_failure<T>(v: T, e: T, w: T)
    requires
        e != v,
    ensures
        apply_op(v, (Op::CompareAndSwap { expected: e, replacement: w })) == (v, v),
{
}

/// Exchange: on a cell holding `v`, an exchange storing `w` returns `v` and
/// leaves `w` in the cell.
pub proof fn lemma_exchange<T>(v: T, w: T)
    ensures
        apply_op(v, (Op::Exchange { value: w })) == (v, w),
{
}

/// Idempotent read-back: exchanging a cell's current value for itself
/// returns that value and leaves the cell unchanged — a true round trip.
pub proof fn lemma_exchange_read_back<T>(v: T)
    ensures
        apply_op(v, (Op::Exchange { value: v })) == (v, v),
{
}

} // verus!
