//! Emulation of atomic read-modify-write instructions for a single-core,
//! interrupt-driven processor that lacks native opcodes for them.
//!
//! True hardware atomicity is replaced by a global critical section: each
//! primitive suppresses interrupts, performs a plain read/compare/write
//! sequence on the target memory cell, and restores the previous
//! interrupt-enable state before returning. On a single core whose only
//! contention is between normal execution and interrupt handlers, this
//! makes every primitive an indivisible step.
//!
//! The crate is layered strictly: `interrupts` holds the critical-section
//! guard; `primitives` holds the compare-and-swap and exchange entry points,
//! one per operand width, built only on the guard. `model` gives the
//! mathematical description of one operation's effect, and `interleaving`
//! proves that a pending interrupt, deliverable only while interrupts are
//! enabled, always observes some total ordering of the two operations.

pub mod interleaving;
pub mod interrupts;
pub mod model;
pub mod primitives;
