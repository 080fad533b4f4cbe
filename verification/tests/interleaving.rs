use sync_builtins::interrupts::DisableInterrupts;
use sync_builtins::interrupts::InterruptState;
use sync_builtins::primitives::__sync_lock_test_and_set_1;
use sync_builtins::primitives::__sync_val_compare_and_swap_1;

// A simulated interrupt handler that runs an exchange on the same cell. It
// may run only while interrupts are deliverable; until then it stays pending.
fn handler_exchange(cpu: &mut InterruptState, cell: &mut u8, value: u8) -> u8 {
    assert!(cpu.is_enabled(), "an interrupt must not be delivered while masked");
    __sync_lock_test_and_set_1(cpu, cell, value)
}

#[test]
fn interrupt_mid_operation_is_deferred_and_the_calls_serialize() {
    let mut cpu = InterruptState::new(true);
    let mut cell: u8 = 5;

    // The main operation, compare-and-swap 5 -> 6, run micro-step by
    // micro-step with the guard, as the primitive itself runs it.
    let guard = DisableInterrupts::new(&mut cpu);
    let startval = cell;
    // An interrupt wanting to run `exchange(cell, 0xFF)` fires here, between
    // the read and the write: it cannot be delivered while masked.
    let mut handler_pending = true;
    if cpu.is_enabled() {
        handler_exchange(&mut cpu, &mut cell, 0xFF);
        handler_pending = false;
    }
    assert!(handler_pending, "the guard must mask the mid-operation interrupt");
    if startval == 5 {
        cell = 6;
    }
    guard.release(&mut cpu);
    let main_returned = startval;

    // The guard released, the pending interrupt is delivered now.
    let mut handler_returned: Option<u8> = None;
    if handler_pending && cpu.is_enabled() {
        handler_returned = Some(handler_exchange(&mut cpu, &mut cell, 0xFF));
    }

    // The combined effect equals the total ordering "main, then handler":
    // no update was lost and no torn value was observed.
    assert_eq!(main_returned, 5);
    assert_eq!(handler_returned, Some(6));
    assert_eq!(cell, 0xFF);
    assert!(cpu.is_enabled());
}

#[test]
fn interrupt_before_the_operation_serializes_the_other_way() {
    let mut cpu = InterruptState::new(true);
    let mut cell: u8 = 5;

    // The interrupt fires before the main operation acquires the guard:
    // interrupts are deliverable, so the handler runs to completion first.
    let handler_returned = handler_exchange(&mut cpu, &mut cell, 0xFF);

    let main_returned = __sync_val_compare_and_swap_1(&mut cpu, &mut cell, 5, 6);

    // The combined effect equals the total ordering "handler, then main":
    // the compare-and-swap sees 0xFF and therefore does not write.
    assert_eq!(handler_returned, 5);
    assert_eq!(main_returned, 0xFF);
    assert_eq!(cell, 0xFF);
    assert!(cpu.is_enabled());
}
