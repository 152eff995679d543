//! The interrupt object: the kernel object through which user space
//! receives and controls hardware interrupts.
//!
//! Each interrupt source handled by an object is mapped to one interrupt
//! signal bit.  When an interrupt fires the kernel masks it and signals the
//! bit on the object; user space waits for the signal, services the
//! interrupt and acknowledges it, which clears the signal and re-enables the
//! interrupt.  The object decides what happens to its notification state and
//! which controller operations each request calls for; the operations are
//! carried out by the callbacks the object was built with.

use vstd::prelude::*;

use crate::status::Error;
use crate::syscall_defs::{InterruptControl, InterruptStatus, Signals};

verus! {

/// A controller operation that an interrupt object asks of its callbacks,
/// applied to the interrupts named by a signal mask.
#[derive(Clone, Copy, Debug, PartialEq, Eq, Structural)]
pub enum IrqOp {
    /// Acknowledge the interrupts (complete the claim and re-enable them).
    Ack(Signals),
    /// Enable the interrupts.
    Enable(Signals),
    /// Disable the interrupts.
    Disable(Signals),
    /// Clear the pending status of the interrupts.
    ClearPending(Signals),
}

/// Whether a signal mask names interrupt signals only (bits 16 to 31).  An
/// interrupt object refuses to acknowledge any other mask, as an invalid
/// argument.
pub open spec fn is_interrupt_mask(mask: u32) -> bool {
    mask & 0xffffu32 == 0
}

/// The status flag that reports a notification not yet acknowledged.
pub open spec fn notified_bit() -> u32 {
    4u32
}

/// The status an interrupt object reports for `mask`: the hardware status
/// where the object controls hardware (nothing otherwise), with NOTIFIED
/// added when a signal of `mask` is active.
pub open spec fn reported_status(active: u32, controls_hardware: bool, mask: u32, hardware: u32) -> u32 {
    let base = if controls_hardware {
        hardware
    } else {
        0u32
    };
    if active & mask != 0 {
        base | notified_bit()
    } else {
        base
    }
}

/// The controller operations that `interrupt_control` calls for: where the
/// object controls hardware, clear the pending status first when asked, then
/// enable the interrupts if ENABLE is set or disable them if it is not.
pub open spec fn control_ops(controls_hardware: bool, mask: Signals, control: u32) -> Seq<IrqOp> {
    if !controls_hardware {
        Seq::empty()
    } else {
        let switch = if control & 1u32 != 0 {
            IrqOp::Enable(mask)
        } else {
            IrqOp::Disable(mask)
        };
        if control & 2u32 != 0 {
            seq![IrqOp::ClearPending(mask), switch]
        } else {
            seq![switch]
        }
    }
}

/// Object for handling user space interrupts.
pub struct InterruptObject {
    active_signals: Signals,
    controls_hardware: bool,
}

impl InterruptObject {
    /// The signals raised on the object and not yet acknowledged.
    pub closed spec fn active(&self) -> u32 {
        self.active_signals@
    }

    /// Whether the object was built with enable, disable, clear-pending and
    /// status callbacks; an object built with only an acknowledge callback
    /// treats those requests as no-ops.
    pub closed spec fn controls_hardware(&self) -> bool {
        self.controls_hardware
    }

    /// A new object with the full set of control callbacks and no active
    /// signal.
    pub fn new() -> (r: Self)
        ensures
            r.active() == 0,
            r.controls_hardware(),
    {
        InterruptObject { active_signals: Signals::new(), controls_hardware: true }
    }

    /// A new object with only the acknowledge callback: enabling, disabling
    /// and clearing pending status do nothing, and the hardware status it
    /// reports is empty.
    pub fn new_simple() -> (r: Self)
        ensures
            r.active() == 0,
            !r.controls_hardware(),
    {
        InterruptObject { active_signals: Signals::new(), controls_hardware: false }
    }

    /// The signals raised on the object and not yet acknowledged.
    pub fn active_signals(&self) -> (r: Signals)
        ensures
            r@ == self.active(),
    {
        self.active_signals
    }

    /// An interrupt fired: raise the signals of `signal_mask` on the object.
    pub fn interrupt(&mut self, signal_mask: Signals)
        ensures
            final(self).active() == old(self).active() | signal_mask@,
            final(self).controls_hardware() == old(self).controls_hardware(),
    {
        self.active_signals.insert(signal_mask);
    }

    /// Whether `signal_mask` names interrupt signals only.
    fn check_mask(signal_mask: Signals) -> (r: Result<(), Error>)
        ensures
            is_interrupt_mask(signal_mask@) ==> r is Ok,
            !is_interrupt_mask(signal_mask@) ==> r == Err::<(), Error>(Error::InvalidArgument),
    {
        if signal_mask.bits() & 0xffff != 0 {
            Err(Error::InvalidArgument)
        } else {
            Ok(())
        }
    }

    /// User space acknowledges the interrupts of `signal_mask`: their
    /// signals are cleared, and the controller is asked to acknowledge them
    /// so that they can fire again.  A mask that names anything but
    /// interrupt signals is rejected as an invalid argument, and nothing
    /// changes.
    pub fn interrupt_ack(&mut self, signal_mask: Signals) -> (r: Result<IrqOp, Error>)
        ensures
            final(self).controls_hardware() == old(self).controls_hardware(),
            signal_mask@ & 0xffffu32 == 0 ==> r == Ok::<IrqOp, Error>(IrqOp::Ack(signal_mask))
                && final(self).active() == old(self).active() & !signal_mask@,
            signal_mask@ & 0xffffu32 != 0 ==> r == Err::<IrqOp, Error>(Error::InvalidArgument)
                && final(self).active() == old(self).active(),
    {
        match Self::check_mask(signal_mask) {
            Err(e) => Err(e),
            Ok(()) => {
                self.active_signals.remove(signal_mask);
                Ok(IrqOp::Ack(signal_mask))
            },
        }
    }

    /// User space enables or disables the interrupts of `signal_mask`, and
    /// optionally clears their pending status.  The object's signals are
    /// left as they are.  Every mask is accepted.
    pub fn interrupt_control(&self, signal_mask: Signals, control: InterruptControl) -> (r: Result<
        Vec<IrqOp>,
        Error,
    >)
        ensures
            r matches Ok(ops) && ops@ == control_ops(self.controls_hardware(), signal_mask, control@),
    {
        let mut ops: Vec<IrqOp> = Vec::new();
        proof {
            let c = control@;
            assert((c & 2u32 == 2u32) == (c & 2u32 != 0u32)) by (bit_vector);
            assert((c & 1u32 == 1u32) == (c & 1u32 != 0u32)) by (bit_vector);
        }
        if self.controls_hardware {
            if control.contains(InterruptControl::CLEAR_PENDING()) {
                ops.push(IrqOp::ClearPending(signal_mask));
            }
            if control.contains(InterruptControl::ENABLE()) {
                ops.push(IrqOp::Enable(signal_mask));
            } else {
                ops.push(IrqOp::Disable(signal_mask));
            }
        }
        proof {
            assert(ops@ =~= control_ops(self.controls_hardware(), signal_mask, control@));
        }
        Ok(ops)
    }

    /// The status of the interrupts of `signal_mask`, given `hardware`, the
    /// status the controller reports for them: ENABLED and PENDING come from
    /// the controller, NOTIFIED is added when one of their signals is
    /// active.  Every mask is accepted.
    pub fn interrupt_status(&self, signal_mask: Signals, hardware: InterruptStatus) -> (r: Result<
        InterruptStatus,
        Error,
    >)
        ensures
            r matches Ok(status) && status@ == reported_status(
                self.active(),
                self.controls_hardware(),
                signal_mask@,
                hardware@,
            ),
    {
        let mut status = if self.controls_hardware {
            hardware
        } else {
            InterruptStatus::new()
        };
        if !self.active_signals.intersection(signal_mask).is_empty() {
            status.insert(InterruptStatus::NOTIFIED());
        }
        Ok(status)
    }
}

/// An interrupt raised on an object is reported as a notification by every
/// status query that names one of its signals, whatever the controller
/// reports.
pub proof fn lemma_signaled_is_notified(
    active: u32,
    signaled: u32,
    query: u32,
    controls_hardware: bool,
    hardware: u32,
)
    requires
        signaled & query != 0,
    ensures
        reported_status(active | signaled, controls_hardware, query, hardware) & notified_bit() != 0,
{
    assert((active | signaled) & query != 0u32) by (bit_vector)
        requires
            signaled & query != 0u32,
    ;
    let base = if controls_hardware {
        hardware
    } else {
        0u32
    };
    assert((base | 4u32) & 4u32 != 0u32) by (bit_vector);
}

/// Once the signals of `acked` are acknowledged, a status query that names
/// only acknowledged signals reports the controller's status alone: the
/// object adds no notification.
pub proof fn lemma_acked_is_not_notified(
    active: u32,
    acked: u32,
    query: u32,
    controls_hardware: bool,
    hardware: u32,
)
    requires
        query & !acked == 0,
    ensures
        reported_status(active & !acked, controls_hardware, query, hardware) == (if controls_hardware {
            hardware
        } else {
            0u32
        }),
{
    assert((active & !acked) & query == 0u32) by (bit_vector)
        requires
            query & !acked == 0u32,
    ;
}

/// Acknowledging the signals an interrupt raised returns the object to the
/// notification state it had before the interrupt, where none of them was
/// active then.
pub proof fn lemma_ack_undoes_interrupt(active: u32, signaled: u32)
    requires
        active & signaled == 0,
    ensures
        (active | signaled) & !signaled == active,
{
    assert((active | signaled) & !signaled == active) by (bit_vector)
        requires
            active & signaled == 0u32,
    ;
}

/// An object built with only an acknowledge callback never reports the
/// interrupts enabled or pending: at most the NOTIFIED flag.
pub proof fn lemma_simple_object_reports_only_notification(active: u32, query: u32, hardware: u32)
    ensures
        reported_status(active, false, query, hardware) & !notified_bit() == 0,
{
    assert((0u32 | 4u32) & !4u32 == 0u32) by (bit_vector);
    assert(0u32 & !4u32 == 0u32) by (bit_vector);
}

/// A status query with an empty mask reports the controller's status alone.
pub proof fn lemma_empty_mask_status(active: u32, controls_hardware: bool, hardware: u32)
    ensures
        reported_status(active, controls_hardware, 0, hardware) == (if controls_hardware {
            hardware
        } else {
            0u32
        }),
{
    assert(active & 0u32 == 0u32) by (bit_vector);
}

/// The masks an interrupt object acknowledges are exactly those with no
/// bit below 16 set: every combination of interrupt signals, the empty mask
/// included, and no mask holding READABLE, WRITEABLE, ERROR, USER or another
/// low bit.
pub proof fn lemma_interrupt_masks(mask: u32)
    ensures
        is_interrupt_mask(mask) <==> mask & 0xffffu32 == 0,
        is_interrupt_mask(mask & 0xffff_0000u32),
        is_interrupt_mask(0),
        mask & 0xffffu32 != 0 ==> !is_interrupt_mask(mask),
{
    assert((mask & 0xffff_0000u32) & 0xffffu32 == 0u32) by (bit_vector);
    assert(0u32 & 0xffffu32 == 0u32) by (bit_vector);
}

/// An object that controls hardware reports every flag the controller
/// reports (ENABLED, PENDING and any other), and adds to them only NOTIFIED,
/// which it adds exactly when a signal of the mask is active.  An object
/// without hardware control reports NOTIFIED alone, or nothing.
pub proof fn lemma_reported_status_flags(active: u32, controls_hardware: bool, mask: u32, hardware: u32)
    ensures
        controls_hardware ==> reported_status(active, controls_hardware, mask, hardware) & hardware
            == hardware,
        controls_hardware ==> reported_status(active, controls_hardware, mask, hardware) & !4u32
            == hardware & !4u32,
        !controls_hardware ==> reported_status(active, controls_hardware, mask, hardware) & !4u32
            == 0,
        active & mask != 0 ==> reported_status(active, controls_hardware, mask, hardware) & 4u32
            == 4u32,
        active & mask == 0 ==> reported_status(active, controls_hardware, mask, hardware) == (
        if controls_hardware {
            hardware
        } else {
            0u32
        }),
{
    let h = hardware;
    assert((h | 4u32) & h == h) by (bit_vector);
    assert(h & h == h) by (bit_vector);
    assert((h | 4u32) & !4u32 == h & !4u32) by (bit_vector);
    assert((0u32 | 4u32) & !4u32 == 0u32) by (bit_vector);
    assert(0u32 & !4u32 == 0u32) by (bit_vector);
    assert((h | 4u32) & 4u32 == 4u32) by (bit_vector);
    assert((0u32 | 4u32) & 4u32 == 4u32) by (bit_vector);
}

} // verus!
