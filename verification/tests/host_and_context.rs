use pw_kernel::interrupt_controller::StaticContext;
use pw_kernel::status::Error;
use pw_kernel::syscall_defs::{InterruptControl, Signals};
use pw_kernel::syscall_host::SysCall;

#[test]
fn host_syscalls_are_unimplemented() {
    assert_eq!(SysCall::object_wait(1, 2, 3), Err(Error::Unimplemented));
    assert_eq!(SysCall::interrupt_ack(1, Signals::INTERRUPT_A()), Err(Error::Unimplemented));
    assert_eq!(SysCall::interrupt_control(1, Signals::INTERRUPT_A(), InterruptControl::ENABLE()), Err(Error::Unimplemented));
    assert_eq!(SysCall::interrupt_status(1, Signals::INTERRUPT_A()), Err(Error::Unimplemented));
    assert_eq!(SysCall::debug_putc(b'a' as u32), Err(Error::Unimplemented));
    assert_eq!(SysCall::debug_shutdown(0), Err(Error::Unimplemented));
    assert_eq!(SysCall::debug_nop(), Err(Error::Unimplemented));
    assert_eq!(SysCall::debug_trigger_interrupt(5), Err(Error::Unimplemented));
}

#[test]
fn static_context_reads_back_what_was_set() {
    let mut ctx: StaticContext<u32> = StaticContext::new();
    assert_eq!(ctx.get(), None);
    ctx.set(7);
    assert_eq!(ctx.get(), Some(7));
    ctx.set(9);
    assert_eq!(ctx.get(), Some(9));
}
