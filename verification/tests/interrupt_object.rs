use pw_kernel::interrupt_object::{InterruptObject, IrqOp};
use pw_kernel::status::Error;
use pw_kernel::syscall_defs::{InterruptControl, InterruptStatus, Signals};

fn irq() -> Signals {
    Signals::INTERRUPT_A()
}

fn hw_enabled() -> InterruptStatus {
    InterruptStatus::ENABLED()
}

fn status(obj: &InterruptObject, mask: Signals, hardware: InterruptStatus) -> InterruptStatus {
    obj.interrupt_status(mask, hardware).unwrap()
}

fn control(obj: &InterruptObject, mask: Signals, ctrl: InterruptControl) -> Vec<IrqOp> {
    obj.interrupt_control(mask, ctrl).unwrap()
}

#[test]
fn initial_status_is_not_notified() {
    let obj = InterruptObject::new();
    assert!(obj.active_signals().is_empty());
    let st = status(&obj, irq(), hw_enabled());
    assert!(st.contains(InterruptStatus::ENABLED()));
    assert!(!st.contains(InterruptStatus::NOTIFIED()));
}

#[test]
fn control_with_no_flags_disables() {
    let obj = InterruptObject::new();
    assert_eq!(control(&obj, irq(), InterruptControl::new()), vec![IrqOp::Disable(irq())]);
}

#[test]
fn control_with_enable_enables() {
    let obj = InterruptObject::new();
    assert_eq!(control(&obj, irq(), InterruptControl::ENABLE()), vec![IrqOp::Enable(irq())]);
}

#[test]
fn clear_pending_comes_before_enable() {
    let obj = InterruptObject::new();
    let ops = control(&obj, irq(), InterruptControl::ENABLE() | InterruptControl::CLEAR_PENDING());
    assert_eq!(ops, vec![IrqOp::ClearPending(irq()), IrqOp::Enable(irq())]);
}

#[test]
fn clear_pending_alone_also_disables() {
    let obj = InterruptObject::new();
    let ops = control(&obj, irq(), InterruptControl::CLEAR_PENDING());
    assert_eq!(ops, vec![IrqOp::ClearPending(irq()), IrqOp::Disable(irq())]);
}

#[test]
fn interrupt_is_notified_until_acked() {
    let mut obj = InterruptObject::new();
    obj.interrupt(irq());
    assert_eq!(obj.active_signals(), irq());
    assert!(status(&obj, irq(), InterruptStatus::new()).contains(InterruptStatus::NOTIFIED()));

    // Re-enabling through interrupt_control does not consume the notification.
    let _ = control(&obj, irq(), InterruptControl::ENABLE());
    assert!(status(&obj, irq(), hw_enabled()).contains(InterruptStatus::NOTIFIED()));

    assert_eq!(obj.interrupt_ack(irq()), Ok(IrqOp::Ack(irq())));
    assert!(obj.active_signals().is_empty());
    assert_eq!(status(&obj, irq(), hw_enabled()), hw_enabled());
}

#[test]
fn ack_clears_only_its_signals() {
    let mut obj = InterruptObject::new();
    obj.interrupt(Signals::INTERRUPT_A() | Signals::INTERRUPT_B());
    assert!(obj.interrupt_ack(Signals::INTERRUPT_A()).is_ok());
    assert_eq!(obj.active_signals(), Signals::INTERRUPT_B());
    assert!(!status(&obj, Signals::INTERRUPT_A(), InterruptStatus::new()).contains(InterruptStatus::NOTIFIED()));
    assert!(status(&obj, Signals::INTERRUPT_B(), InterruptStatus::new()).contains(InterruptStatus::NOTIFIED()));
}

#[test]
fn empty_mask_status_is_hardware_status() {
    let mut obj = InterruptObject::new();
    obj.interrupt(irq());
    assert_eq!(status(&obj, Signals::new(), InterruptStatus::PENDING()), InterruptStatus::PENDING());
    assert_eq!(control(&obj, Signals::new(), InterruptControl::ENABLE()), vec![IrqOp::Enable(Signals::new())]);
}

#[test]
fn all_interrupt_signals_are_a_valid_mask() {
    let obj = InterruptObject::new();
    let all = Signals::from_bits_truncate(0xffff_0000);
    assert_eq!(control(&obj, all, InterruptControl::ENABLE()), vec![IrqOp::Enable(all)]);
}

#[test]
fn status_keeps_hardware_flags() {
    let mut obj = InterruptObject::new();
    obj.interrupt(irq());
    let st = status(&obj, irq(), InterruptStatus::ENABLED() | InterruptStatus::PENDING());
    assert_eq!(st.bits(), 0b111);
}

#[test]
fn ack_rejects_non_interrupt_signals() {
    let mut obj = InterruptObject::new();
    obj.interrupt(irq() | Signals::READABLE());
    let before = obj.active_signals();
    assert_eq!(obj.interrupt_ack(irq() | Signals::READABLE()), Err(Error::InvalidArgument));
    assert_eq!(obj.interrupt_ack(Signals::USER()), Err(Error::InvalidArgument));
    assert_eq!(obj.active_signals(), before);
}

#[test]
fn control_accepts_multiple_signal_masks() {
    let obj = InterruptObject::new();
    let mask = irq() | Signals::from_bits_truncate(0x0f);
    assert_eq!(obj.interrupt_control(mask, InterruptControl::ENABLE()), Ok(vec![IrqOp::Enable(mask)]));
    assert_eq!(obj.interrupt_control(Signals::ERROR(), InterruptControl::new()), Ok(vec![IrqOp::Disable(Signals::ERROR())]));
    let simple = InterruptObject::new_simple();
    assert_eq!(simple.interrupt_control(mask, InterruptControl::ENABLE()), Ok(vec![]));
}

#[test]
fn status_accepts_multiple_signal_masks() {
    let mut obj = InterruptObject::new();
    obj.interrupt(irq());
    let st = obj.interrupt_status(irq() | Signals::WRITEABLE(), hw_enabled()).unwrap();
    assert_eq!(st, InterruptStatus::ENABLED() | InterruptStatus::NOTIFIED());
    let st = obj.interrupt_status(Signals::from_bits_retain(0x100), hw_enabled()).unwrap();
    assert_eq!(st, hw_enabled());
}

#[test]
fn simple_object_ignores_control_and_hardware_status() {
    let mut obj = InterruptObject::new_simple();
    assert!(control(&obj, irq(), InterruptControl::ENABLE() | InterruptControl::CLEAR_PENDING()).is_empty());
    assert!(control(&obj, irq(), InterruptControl::new()).is_empty());
    assert!(status(&obj, irq(), hw_enabled()).is_empty());
    obj.interrupt(irq());
    assert_eq!(status(&obj, irq(), hw_enabled()), InterruptStatus::NOTIFIED());
    assert_eq!(obj.interrupt_ack(irq()), Ok(IrqOp::Ack(irq())));
    assert!(status(&obj, irq(), hw_enabled()).is_empty());
    assert_eq!(obj.interrupt_ack(Signals::READABLE()), Err(Error::InvalidArgument));
}
