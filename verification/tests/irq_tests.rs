use axplat_aarch64::gicv3::{is_local_irq, HandlerTable, IpiTarget, IrqIfImpl, MAX_IRQ_COUNT};

#[test]
fn routing_threshold_boundary() {
    assert!(is_local_irq(0));
    assert!(is_local_irq(31));
    assert!(!is_local_irq(32));
    assert!(!is_local_irq(1023));
}

#[test]
fn set_enable_routes_31_per_cpu_and_32_global() {
    let mut gic: IrqIfImpl<u32> = IrqIfImpl::init(false);
    gic.set_enable(31, true);
    assert!(gic.local_irq_enabled(31));
    assert!(!gic.global_irq_enabled(31));
    gic.set_enable(32, true);
    assert!(gic.global_irq_enabled(32));
    gic.set_enable(31, false);
    assert!(!gic.local_irq_enabled(31));
    assert!(gic.global_irq_enabled(32));
    gic.set_enable(32, false);
    assert!(!gic.global_irq_enabled(32));
}

#[test]
fn register_occupied_fails_and_keeps_original() {
    let mut gic: IrqIfImpl<u32> = IrqIfImpl::init(false);
    assert!(gic.register(33, 7));
    assert!(gic.global_irq_enabled(33));
    // Second registration for the same number fails...
    assert!(!gic.register(33, 8));
    // ...and the original handler stays active.
    let outcome = gic.handle(Some(33));
    assert_eq!(outcome.invoked, Some(7));
    assert!(gic.global_irq_enabled(33));
}

#[test]
fn unregister_then_register_succeeds() {
    let mut gic: IrqIfImpl<u32> = IrqIfImpl::init(false);
    assert!(gic.register(33, 7));
    assert_eq!(gic.unregister(33), Some(7));
    assert!(!gic.global_irq_enabled(33));
    assert!(gic.register(33, 8));
    assert!(gic.global_irq_enabled(33));
    let outcome = gic.handle(Some(33));
    assert_eq!(outcome.invoked, Some(8));
}

#[test]
fn unregister_empty_returns_none() {
    let mut gic: IrqIfImpl<u32> = IrqIfImpl::init(false);
    assert_eq!(gic.unregister(40), None);
}

#[test]
fn register_enables_local_path_below_threshold() {
    let mut gic: IrqIfImpl<u32> = IrqIfImpl::init(false);
    assert!(gic.register(31, 5));
    assert!(gic.local_irq_enabled(31));
    assert!(!gic.global_irq_enabled(31));
}

#[test]
fn handle_no_pending_is_noop() {
    let gic: IrqIfImpl<u32> = IrqIfImpl::init(true);
    let outcome = gic.handle(None);
    assert_eq!(outcome.invoked, None);
    assert_eq!(outcome.unhandled, None);
    assert_eq!(outcome.eoi, None);
    assert_eq!(outcome.deactivate, None);
}

#[test]
fn handle_unregistered_logs_and_still_eois_once() {
    let gic: IrqIfImpl<u32> = IrqIfImpl::init(false);
    let outcome = gic.handle(Some(33));
    assert_eq!(outcome.invoked, None);
    assert_eq!(outcome.unhandled, Some(33));
    assert_eq!(outcome.eoi, Some(33));
    assert_eq!(outcome.deactivate, None);
}

#[test]
fn handle_deactivates_in_split_eoi_mode() {
    let gic: IrqIfImpl<u32> = IrqIfImpl::init(true);
    let outcome = gic.handle(Some(40));
    assert_eq!(outcome.eoi, Some(40));
    assert_eq!(outcome.deactivate, Some(40));
}

#[test]
fn handle_end_to_end_keeps_registration() {
    let mut gic: IrqIfImpl<u32> = IrqIfImpl::init(false);
    assert!(gic.register(33, 7));
    // A pending interrupt 33 invokes exactly the registered handler and
    // owes end-of-interrupt for 33.
    let outcome = gic.handle(Some(33));
    assert_eq!(outcome.invoked, Some(7));
    assert_eq!(outcome.unhandled, None);
    assert_eq!(outcome.eoi, Some(33));
    // Handling does not consume the registration.
    let again = gic.handle(Some(33));
    assert_eq!(again.invoked, Some(7));
    assert_eq!(gic.unregister(33), Some(7));
}

#[test]
fn handle_out_of_range_number_is_unhandled() {
    let gic: IrqIfImpl<u32> = IrqIfImpl::init(false);
    let outcome = gic.handle(Some(5000));
    assert_eq!(outcome.invoked, None);
    assert_eq!(outcome.unhandled, Some(5000));
    assert_eq!(outcome.eoi, Some(5000));
}

fn nop_handler() {}

#[test]
fn function_pointer_handlers_dispatch() {
    let mut gic: IrqIfImpl<fn()> = IrqIfImpl::init(false);
    assert!(gic.register(33, nop_handler as fn()));
    let outcome = gic.handle(Some(33));
    let h = outcome.invoked.expect("handler registered");
    h();
}

#[test]
fn init_current_cpu_keeps_state() {
    let mut gic: IrqIfImpl<u32> = IrqIfImpl::init(false);
    assert!(gic.register(33, 7));
    gic.init_current_cpu();
    assert!(gic.global_irq_enabled(33));
    assert_eq!(gic.handle(Some(33)).invoked, Some(7));
}

#[test]
fn send_ipi_is_unimplemented() {
    let mut gic: IrqIfImpl<u32> = IrqIfImpl::init(false);
    assert!(!gic.send_ipi(5, IpiTarget::Current { cpu_id: 0 }));
    assert!(!gic.send_ipi(5, IpiTarget::Other { cpu_id: 1 }));
    assert!(!gic.send_ipi(5, IpiTarget::AllExceptCurrent { cpu_id: 0, cpu_num: 4 }));
}

#[test]
fn handler_table_bounds() {
    let mut t: HandlerTable<u32> = HandlerTable::new();
    assert!(!t.register_handler(MAX_IRQ_COUNT, 1));
    assert!(t.register_handler(MAX_IRQ_COUNT - 1, 1));
    assert_eq!(t.unregister_handler(MAX_IRQ_COUNT), None);
    assert_eq!(t.unregister_handler(MAX_IRQ_COUNT - 1), Some(1));
    assert_eq!(t.lookup(MAX_IRQ_COUNT - 1), None);
}
