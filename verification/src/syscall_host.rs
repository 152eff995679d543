//! The system call interface on a host, where no kernel runs: every system
//! call fails as unimplemented.

use vstd::prelude::*;

use crate::status::Error;
use crate::syscall_defs::{InterruptControl, InterruptStatus, Signals};

verus! {

/// System calls on a host.
pub struct SysCall {}

impl SysCall {
    pub fn object_wait(_handle: u32, _signal_mask: u32, _deadline: u64) -> (r: Result<Signals, Error>)
        ensures
            r == Err::<Signals, Error>(Error::Unimplemented),
    {
        Err(Error::Unimplemented)
    }

    pub fn interrupt_ack(_handle: u32, _signal_mask: Signals) -> (r: Result<(), Error>)
        ensures
            r == Err::<(), Error>(Error::Unimplemented),
    {
        Err(Error::Unimplemented)
    }

    pub fn interrupt_control(_handle: u32, _signal_mask: Signals, _control: InterruptControl) -> (r:
        Result<(), Error>)
        ensures
            r == Err::<(), Error>(Error::Unimplemented),
    {
        Err(Error::Unimplemented)
    }

    pub fn interrupt_status(_handle: u32, _signal_mask: Signals) -> (r: Result<InterruptStatus, Error>)
        ensures
            r == Err::<InterruptStatus, Error>(Error::Unimplemented),
    {
        Err(Error::Unimplemented)
    }

    pub fn debug_putc(_a: u32) -> (r: Result<u32, Error>)
        ensures
            r == Err::<u32, Error>(Error::Unimplemented),
    {
        Err(Error::Unimplemented)
    }

    pub fn debug_shutdown(_a: u32) -> (r: Result<(), Error>)
        ensures
            r == Err::<(), Error>(Error::Unimplemented),
    {
        Err(Error::Unimplemented)
    }

    pub fn debug_nop() -> (r: Result<(), Error>)
        ensures
            r == Err::<(), Error>(Error::Unimplemented),
    {
        Err(Error::Unimplemented)
    }

    pub fn debug_trigger_interrupt(_irq: u32) -> (r: Result<(), Error>)
        ensures
            r == Err::<(), Error>(Error::Unimplemented),
    {
        Err(Error::Unimplemented)
    }
}

} // verus!
