//! The critical-section guard: exclusive execution on the current core by
//! suppressing interrupts, with a nesting-safe save/restore discipline.
//!
//! Acquisition records the interrupt-enable state as it was immediately
//! before and suppresses interrupts; release restores exactly the recorded
//! state, never unconditionally "on", so a guard acquired inside an already
//! masked region leaves that region masked when it is released.

use vstd::prelude::*;

verus! {

/// The processor's interrupt-enable state on the current core.
///
/// The real state lives in the interrupt controller's register; callers that
/// sit next to the hardware read that register into this value, run the
/// primitives, and write the resulting state back.
pub struct InterruptState {
    enabled: bool,
}

impl InterruptState {
    /// Whether interrupts are currently deliverable on this core.
    pub closed spec fn enabled(self) -> bool {
        self.enabled
    }

    /// Builds the state with the given interrupt-enable bit.
    pub fn new(enabled: bool) -> (s: InterruptState)
        ensures
            s.enabled() == enabled,
    {
        InterruptState { enabled }
    }

    /// Reads the interrupt-enable bit.
    pub fn is_enabled(&self) -> (r: bool)
        ensures
            r == self.enabled(),
    {
        self.enabled
    }
}

/// A token standing for "interrupts are suppressed on this core".
///
/// It records the interrupt-enable state found at acquisition, and releasing
/// it restores exactly that state. The token is not `Copy` and not `Clone`,
/// so a critical section can be left at most once through it; every exit
/// path of a guarded region must consume it with [`DisableInterrupts::release`].
pub struct DisableInterrupts {
    saved: bool,
}

impl DisableInterrupts {
    /// The interrupt-enable state recorded at acquisition.
    pub closed spec fn saved(self) -> bool {
        self.saved
    }

    /// Acquires the critical section: saves the current interrupt-enable
    /// state and suppresses interrupts.
    pub fn new(cpu: &mut InterruptState) -> (g: DisableInterrupts)
        ensures
            !final(cpu).enabled(),
            g.saved() == old(cpu).enabled(),
    {
        let saved: bool = cpu.enabled;
        cpu.enabled = false;
        DisableInterrupts { saved }
    }

    /// Releases the critical section: restores the interrupt-enable state
    /// recorded at acquisition, and consumes the token so that release
    /// happens at most once.
    pub fn release(self, cpu: &mut InterruptState)
        ensures
            final(cpu).enabled() == self.saved(),
    {
        cpu.enabled = self.saved;
    }
}

/// Acquires the critical-section guard for the current core.
pub fn disable_interrupts(cpu: &mut InterruptState) -> (g: DisableInterrupts)
    ensures
        !final(cpu).enabled(),
        g.saved() == old(cpu).enabled(),
{
    DisableInterrupts::new(cpu)
}

/// Nested-guard safety: a guard acquired while interrupts are already
/// suppressed by an outer scope restores a suppressed state on release, so
/// the inner release never re-enables interrupts prematurely.
///
/// `during` and `g` are what acquisition produces from `before`, and `after`
/// is what releasing `g` produces, each pinned by the contracts of
/// [`DisableInterrupts::new`] and [`DisableInterrupts::release`].
pub proof fn lemma_nested_guard_safety(
    before: InterruptState,
    during: InterruptState,
    g: DisableInterrupts,
    after: InterruptState,
)
    requires
        !before.enabled(),
        !during.enabled(),
        g.saved() == before.enabled(),
        after.enabled() == g.saved(),
    ensures
        !after.enabled(),
{
}

} // verus!
