//! Types shared by the kernel and user space across the system call
//! boundary: object signals, interrupt control and status flags, system
//! call identifiers and the encoding of system call return values.

use vstd::prelude::*;

use crate::status::{Error, error_code, error_of_code, is_error_code};

verus! {

/// Every bit that names a signal: READABLE, WRITEABLE, ERROR, USER and the
/// sixteen interrupt signals in bits 16 to 31.
pub open spec fn signals_all_bits() -> u32 {
    0xffff_8007u32
}

/// The bits of every interrupt signal (bits 16 to 31).
pub open spec fn interrupt_signal_bits() -> u32 {
    0xffff_0000u32
}

/// Every bit that names an interrupt control flag.
pub open spec fn interrupt_control_all_bits() -> u32 {
    0b11u32
}

/// Every bit that names an interrupt status flag.
pub open spec fn interrupt_status_all_bits() -> u32 {
    0b111u32
}

pub broadcast group group_flag_bits {
    Signals::lemma_with_bits,
    InterruptControl::lemma_with_bits,
    InterruptStatus::lemma_with_bits,
}

/// A set of object signals, held as a bit mask.
#[derive(Clone, Copy, Debug, PartialEq, Eq, Structural)]
pub struct Signals(u32);

impl View for Signals {
    type V = u32;

    closed spec fn view(&self) -> u32 {
        self.0
    }
}

impl Signals {
    /// Object is readable.
    #[allow(non_snake_case)]
    pub fn READABLE() -> (r: Signals)
        ensures
            r@ == 1u32,
    {
        Signals(1)
    }

    /// Object is writeable.
    #[allow(non_snake_case)]
    pub fn WRITEABLE() -> (r: Signals)
        ensures
            r@ == 2u32,
    {
        Signals(2)
    }

    /// Object is in an error state.
    #[allow(non_snake_case)]
    pub fn ERROR() -> (r: Signals)
        ensures
            r@ == 4u32,
    {
        Signals(4)
    }

    /// Object has a protocol specific user signal pending.
    #[allow(non_snake_case)]
    pub fn USER() -> (r: Signals)
        ensures
            r@ == 0x8000u32,
    {
        Signals(0x8000)
    }

    /// Interrupt signal A (bit 16).  Interrupt signals are named by
    /// letter, not number, so as not to confuse the position within an
    /// object mask with the IRQ number.
    #[allow(non_snake_case)]
    pub fn INTERRUPT_A() -> (r: Signals)
        ensures
            r@ == 0x10000u32,
    {
        Signals(0x10000)
    }

    /// Interrupt signal B (bit 17).
    #[allow(non_snake_case)]
    pub fn INTERRUPT_B() -> (r: Signals)
        ensures
            r@ == 0x20000u32,
    {
        Signals(0x20000)
    }

    /// Interrupt signal C (bit 18).
    #[allow(non_snake_case)]
    pub fn INTERRUPT_C() -> (r: Signals)
        ensures
            r@ == 0x40000u32,
    {
        Signals(0x40000)
    }

    /// Interrupt signal D (bit 19).
    #[allow(non_snake_case)]
    pub fn INTERRUPT_D() -> (r: Signals)
        ensures
            r@ == 0x80000u32,
    {
        Signals(0x80000)
    }

    /// Interrupt signal E (bit 20).
    #[allow(non_snake_case)]
    pub fn INTERRUPT_E() -> (r: Signals)
        ensures
            r@ == 0x100000u32,
    {
        Signals(0x100000)
    }

    /// Interrupt signal F (bit 21).
    #[allow(non_snake_case)]
    pub fn INTERRUPT_F() -> (r: Signals)
        ensures
            r@ == 0x200000u32,
    {
        Signals(0x200000)
    }

    /// Interrupt signal G (bit 22).
    #[allow(non_snake_case)]
    pub fn INTERRUPT_G() -> (r: Signals)
        ensures
            r@ == 0x400000u32,
    {
        Signals(0x400000)
    }

    /// Interrupt signal H (bit 23).
    #[allow(non_snake_case)]
    pub fn INTERRUPT_H() -> (r: Signals)
        ensures
            r@ == 0x800000u32,
    {
        Signals(0x800000)
    }

    /// Interrupt signal I (bit 24).
    #[allow(non_snake_case)]
    pub fn INTERRUPT_I() -> (r: Signals)
        ensures
            r@ == 0x1000000u32,
    {
        Signals(0x1000000)
    }

    /// Interrupt signal J (bit 25).
    #[allow(non_snake_case)]
    pub fn INTERRUPT_J() -> (r: Signals)
        ensures
            r@ == 0x2000000u32,
    {
        Signals(0x2000000)
    }

    /// Interrupt signal K (bit 26).
    #[allow(non_snake_case)]
    pub fn INTERRUPT_K() -> (r: Signals)
        ensures
            r@ == 0x4000000u32,
    {
        Signals(0x4000000)
    }

    /// Interrupt signal L (bit 27).
    #[allow(non_snake_case)]
    pub fn INTERRUPT_L() -> (r: Signals)
        ensures
            r@ == 0x8000000u32,
    {
        Signals(0x8000000)
    }

    /// Interrupt signal M (bit 28).
    #[allow(non_snake_case)]
    pub fn INTERRUPT_M() -> (r: Signals)
        ensures
            r@ == 0x10000000u32,
    {
        Signals(0x10000000)
    }

    /// Interrupt signal N (bit 29).
    #[allow(non_snake_case)]
    pub fn INTERRUPT_N() -> (r: Signals)
        ensures
            r@ == 0x20000000u32,
    {
        Signals(0x20000000)
    }

    /// Interrupt signal O (bit 30).
    #[allow(non_snake_case)]
    pub fn INTERRUPT_O() -> (r: Signals)
        ensures
            r@ == 0x40000000u32,
    {
        Signals(0x40000000)
    }

    /// Interrupt signal P (bit 31).
    #[allow(non_snake_case)]
    pub fn INTERRUPT_P() -> (r: Signals)
        ensures
            r@ == 0x80000000u32,
    {
        Signals(0x80000000)
    }

    /// The empty set.
    pub fn new() -> (r: Self)
        ensures
            r@ == 0,
    {
        Signals(0)
    }

    /// The empty set.
    pub fn empty() -> (r: Self)
        ensures
            r@ == 0,
    {
        Signals(0)
    }

    /// Every named flag.
    pub fn all() -> (r: Self)
        ensures
            r@ == signals_all_bits(),
    {
        Signals(0xffff_8007)
    }

    /// The raw bit mask.
    pub fn bits(&self) -> (r: u32)
        ensures
            r == self@,
    {
        self.0
    }

    /// The flags named in `bits`; bits that name no flag are dropped.
    pub fn from_bits_truncate(bits: u32) -> (r: Self)
        ensures
            r@ == bits & signals_all_bits(),
    {
        Signals(bits & 0xffff_8007)
    }

    /// The bit mask `bits`, kept as it is.
    pub fn from_bits_retain(bits: u32) -> (r: Self)
        ensures
            r@ == bits,
    {
        Signals(bits)
    }

    /// Whether no flag is set.
    pub fn is_empty(&self) -> (r: bool)
        ensures
            r == (self@ == 0),
    {
        self.0 == 0
    }

    /// Whether every flag of `other` is set in `self`.
    pub fn contains(&self, other: Signals) -> (r: bool)
        ensures
            r == (self@ & other@ == other@),
    {
        self.0 & other.0 == other.0
    }

    /// Whether `self` and `other` share a flag.
    pub fn intersects(&self, other: Signals) -> (r: bool)
        ensures
            r == (self@ & other@ != 0),
    {
        self.0 & other.0 != 0
    }

    /// The flags set in either.
    pub fn union(self, other: Signals) -> (r: Self)
        ensures
            r@ == self@ | other@,
    {
        Signals(self.0 | other.0)
    }

    /// The flags set in both.
    pub fn intersection(self, other: Signals) -> (r: Self)
        ensures
            r@ == self@ & other@,
    {
        Signals(self.0 & other.0)
    }

    /// The flags of `self` that are not in `other`.
    pub fn difference(self, other: Signals) -> (r: Self)
        ensures
            r@ == self@ & !other@,
    {
        Signals(self.0 & !other.0)
    }

    /// Sets the flags of `other`.
    pub fn insert(&mut self, other: Signals)
        ensures
            final(self)@ == old(self)@ | other@,
    {
        self.0 = self.0 | other.0;
    }

    /// Clears the flags of `other`.
    pub fn remove(&mut self, other: Signals)
        ensures
            final(self)@ == old(self)@ & !other@,
    {
        self.0 = self.0 & !other.0;
    }

    /// The value whose bit mask is `bits`.
    pub closed spec fn with_bits(bits: u32) -> Signals {
        Signals(bits)
    }

    pub broadcast proof fn lemma_with_bits(bits: u32)
        ensures
            #[trigger] Signals::with_bits(bits)@ == bits,
    {
    }

    /// A value is determined by its bit mask.
    pub proof fn lemma_with_bits_of(v: Signals)
        ensures
            Signals::with_bits(v@) == v,
    {
    }
}

impl core::ops::BitOr for Signals {
    type Output = Signals;

    fn bitor(self, rhs: Signals) -> (r: Signals) {
        Signals(self.0 | rhs.0)
    }
}

impl vstd::std_specs::ops::BitOrSpecImpl for Signals {
    open spec fn obeys_bitor_spec() -> bool {
        true
    }

    open spec fn bitor_req(self, rhs: Signals) -> bool {
        true
    }

    open spec fn bitor_spec(self, rhs: Signals) -> Signals {
        Signals::with_bits(self@ | rhs@)
    }
}

impl core::ops::BitAnd for Signals {
    type Output = Signals;

    fn bitand(self, rhs: Signals) -> (r: Signals) {
        Signals(self.0 & rhs.0)
    }
}

impl vstd::std_specs::ops::BitAndSpecImpl for Signals {
    open spec fn obeys_bitand_spec() -> bool {
        true
    }

    open spec fn bitand_req(self, rhs: Signals) -> bool {
        true
    }

    open spec fn bitand_spec(self, rhs: Signals) -> Signals {
        Signals::with_bits(self@ & rhs@)
    }
}

impl core::ops::Sub for Signals {
    type Output = Signals;

    fn sub(self, rhs: Signals) -> (r: Signals) {
        Signals(self.0 & !rhs.0)
    }
}

impl vstd::std_specs::ops::SubSpecImpl for Signals {
    open spec fn obeys_sub_spec() -> bool {
        true
    }

    open spec fn sub_req(self, rhs: Signals) -> bool {
        true
    }

    open spec fn sub_spec(self, rhs: Signals) -> Signals {
        Signals::with_bits(self@ & !rhs@)
    }
}

/// Control flags for the `interrupt_control` system call: enable or
/// disable interrupts and clear their pending status.
#[derive(Clone, Copy, Debug, PartialEq, Eq, Structural)]
pub struct InterruptControl(u32);

impl View for InterruptControl {
    type V = u32;

    closed spec fn view(&self) -> u32 {
        self.0
    }
}

impl InterruptControl {
    /// Enable the interrupt(s) specified by the signal mask.  If not set,
    /// the interrupt(s) will be disabled.
    #[allow(non_snake_case)]
    pub fn ENABLE() -> (r: InterruptControl)
        ensures
            r@ == 1u32,
    {
        InterruptControl(1)
    }

    /// Clear any pending status for the interrupt(s).
    #[allow(non_snake_case)]
    pub fn CLEAR_PENDING() -> (r: InterruptControl)
        ensures
            r@ == 2u32,
    {
        InterruptControl(2)
    }

    /// The empty set.
    pub fn new() -> (r: Self)
        ensures
            r@ == 0,
    {
        InterruptControl(0)
    }

    /// The empty set.
    pub fn empty() -> (r: Self)
        ensures
            r@ == 0,
    {
        InterruptControl(0)
    }

    /// Every named flag.
    pub fn all() -> (r: Self)
        ensures
            r@ == interrupt_control_all_bits(),
    {
        InterruptControl(0b11)
    }

    /// The raw bit mask.
    pub fn bits(&self) -> (r: u32)
        ensures
            r == self@,
    {
        self.0
    }

    /// The flags named in `bits`; bits that name no flag are dropped.
    pub fn from_bits_truncate(bits: u32) -> (r: Self)
        ensures
            r@ == bits & interrupt_control_all_bits(),
    {
        InterruptControl(bits & 0b11)
    }

    /// The bit mask `bits`, kept as it is.
    pub fn from_bits_retain(bits: u32) -> (r: Self)
        ensures
            r@ == bits,
    {
        InterruptControl(bits)
    }

    /// Whether no flag is set.
    pub fn is_empty(&self) -> (r: bool)
        ensures
            r == (self@ == 0),
    {
        self.0 == 0
    }

    /// Whether every flag of `other` is set in `self`.
    pub fn contains(&self, other: InterruptControl) -> (r: bool)
        ensures
            r == (self@ & other@ == other@),
    {
        self.0 & other.0 == other.0
    }

    /// Whether `self` and `other` share a flag.
    pub fn intersects(&self, other: InterruptControl) -> (r: bool)
        ensures
            r == (self@ & other@ != 0),
    {
        self.0 & other.0 != 0
    }

    /// The flags set in either.
    pub fn union(self, other: InterruptControl) -> (r: Self)
        ensures
            r@ == self@ | other@,
    {
        InterruptControl(self.0 | other.0)
    }

    /// The flags set in both.
    pub fn intersection(self, other: InterruptControl) -> (r: Self)
        ensures
            r@ == self@ & other@,
    {
        InterruptControl(self.0 & other.0)
    }

    /// The flags of `self` that are not in `other`.
    pub fn difference(self, other: InterruptControl) -> (r: Self)
        ensures
            r@ == self@ & !other@,
    {
        InterruptControl(self.0 & !other.0)
    }

    /// Sets the flags of `other`.
    pub fn insert(&mut self, other: InterruptControl)
        ensures
            final(self)@ == old(self)@ | other@,
    {
        self.0 = self.0 | other.0;
    }

    /// Clears the flags of `other`.
    pub fn remove(&mut self, other: InterruptControl)
        ensures
            final(self)@ == old(self)@ & !other@,
    {
        self.0 = self.0 & !other.0;
    }

    /// The value whose bit mask is `bits`.
    pub closed spec fn with_bits(bits: u32) -> InterruptControl {
        InterruptControl(bits)
    }

    pub broadcast proof fn lemma_with_bits(bits: u32)
        ensures
            #[trigger] InterruptControl::with_bits(bits)@ == bits,
    {
    }

    /// A value is determined by its bit mask.
    pub proof fn lemma_with_bits_of(v: InterruptControl)
        ensures
            InterruptControl::with_bits(v@) == v,
    {
    }
}

impl core::ops::BitOr for InterruptControl {
    type Output = InterruptControl;

    fn bitor(self, rhs: InterruptControl) -> (r: InterruptControl) {
        InterruptControl(self.0 | rhs.0)
    }
}

impl vstd::std_specs::ops::BitOrSpecImpl for InterruptControl {
    open spec fn obeys_bitor_spec() -> bool {
        true
    }

    open spec fn bitor_req(self, rhs: InterruptControl) -> bool {
        true
    }

    open spec fn bitor_spec(self, rhs: InterruptControl) -> InterruptControl {
        InterruptControl::with_bits(self@ | rhs@)
    }
}

/// Status flags returned by the `interrupt_status` system call: the
/// current state of one or more interrupts.
#[derive(Clone, Copy, Debug, PartialEq, Eq, Structural)]
pub struct InterruptStatus(u32);

impl View for InterruptStatus {
    type V = u32;

    closed spec fn view(&self) -> u32 {
        self.0
    }
}

impl InterruptStatus {
    /// At least one interrupt in the mask is enabled at hardware level.
    #[allow(non_snake_case)]
    pub fn ENABLED() -> (r: InterruptStatus)
        ensures
            r@ == 1u32,
    {
        InterruptStatus(1)
    }

    /// At least one interrupt in the mask is pending in hardware.
    #[allow(non_snake_case)]
    pub fn PENDING() -> (r: InterruptStatus)
        ensures
            r@ == 2u32,
    {
        InterruptStatus(2)
    }

    /// A notification has been posted but not yet consumed by a wait.
    #[allow(non_snake_case)]
    pub fn NOTIFIED() -> (r: InterruptStatus)
        ensures
            r@ == 4u32,
    {
        InterruptStatus(4)
    }

    /// The empty set.
    pub fn new() -> (r: Self)
        ensures
            r@ == 0,
    {
        InterruptStatus(0)
    }

    /// The empty set.
    pub fn empty() -> (r: Self)
        ensures
            r@ == 0,
    {
        InterruptStatus(0)
    }

    /// Every named flag.
    pub fn all() -> (r: Self)
        ensures
            r@ == interrupt_status_all_bits(),
    {
        InterruptStatus(0b111)
    }

    /// The raw bit mask.
    pub fn bits(&self) -> (r: u32)
        ensures
            r == self@,
    {
        self.0
    }

    /// The flags named in `bits`; bits that name no flag are dropped.
    pub fn from_bits_truncate(bits: u32) -> (r: Self)
        ensures
            r@ == bits & interrupt_status_all_bits(),
    {
        InterruptStatus(bits & 0b111)
    }

    /// The bit mask `bits`, kept as it is.
    pub fn from_bits_retain(bits: u32) -> (r: Self)
        ensures
            r@ == bits,
    {
        InterruptStatus(bits)
    }

    /// Whether no flag is set.
    pub fn is_empty(&self) -> (r: bool)
        ensures
            r == (self@ == 0),
    {
        self.0 == 0
    }

    /// Whether every flag of `other` is set in `self`.
    pub fn contains(&self, other: InterruptStatus) -> (r: bool)
        ensures
            r == (self@ & other@ == other@),
    {
        self.0 & other.0 == other.0
    }

    /// Whether `self` and `other` share a flag.
    pub fn intersects(&self, other: InterruptStatus) -> (r: bool)
        ensures
            r == (self@ & other@ != 0),
    {
        self.0 & other.0 != 0
    }

    /// The flags set in either.
    pub fn union(self, other: InterruptStatus) -> (r: Self)
        ensures
            r@ == self@ | other@,
    {
        InterruptStatus(self.0 | other.0)
    }

    /// The flags set in both.
    pub fn intersection(self, other: InterruptStatus) -> (r: Self)
        ensures
            r@ == self@ & other@,
    {
        InterruptStatus(self.0 & other.0)
    }

    /// The flags of `self` that are not in `other`.
    pub fn difference(self, other: InterruptStatus) -> (r: Self)
        ensures
            r@ == self@ & !other@,
    {
        InterruptStatus(self.0 & !other.0)
    }

    /// Sets the flags of `other`.
    pub fn insert(&mut self, other: InterruptStatus)
        ensures
            final(self)@ == old(self)@ | other@,
    {
        self.0 = self.0 | other.0;
    }

    /// Clears the flags of `other`.
    pub fn remove(&mut self, other: InterruptStatus)
        ensures
            final(self)@ == old(self)@ & !other@,
    {
        self.0 = self.0 & !other.0;
    }

    /// The value whose bit mask is `bits`.
    pub closed spec fn with_bits(bits: u32) -> InterruptStatus {
        InterruptStatus(bits)
    }

    pub broadcast proof fn lemma_with_bits(bits: u32)
        ensures
            #[trigger] InterruptStatus::with_bits(bits)@ == bits,
    {
    }

    /// A value is determined by its bit mask.
    pub proof fn lemma_with_bits_of(v: InterruptStatus)
        ensures
            InterruptStatus::with_bits(v@) == v,
    {
    }
}

impl core::ops::BitOr for InterruptStatus {
    type Output = InterruptStatus;

    fn bitor(self, rhs: InterruptStatus) -> (r: InterruptStatus) {
        InterruptStatus(self.0 | rhs.0)
    }
}

impl vstd::std_specs::ops::BitOrSpecImpl for InterruptStatus {
    open spec fn obeys_bitor_spec() -> bool {
        true
    }

    open spec fn bitor_req(self, rhs: InterruptStatus) -> bool {
        true
    }

    open spec fn bitor_spec(self, rhs: InterruptStatus) -> InterruptStatus {
        InterruptStatus::with_bits(self@ | rhs@)
    }
}

/// System call identifiers.  The numbers are not ABI stable yet.  Those
/// from 0xf000 up are reserved for development and debugging.
#[derive(Clone, Copy, Debug, PartialEq, Eq, Structural)]
#[non_exhaustive]
pub enum SysCallId {
    ObjectWait,
    ChannelTransact,
    ChannelRead,
    ChannelRespond,
    InterruptAck,
    InterruptControl,
    InterruptStatus,
    DebugPutc,
    DebugShutdown,
    DebugLog,
    DebugNop,
    DebugTriggerInterrupt,
}

/// The number that identifies a system call.
pub open spec fn syscall_number(id: SysCallId) -> u16 {
    match id {
        SysCallId::ObjectWait => 0x0000u16,
        SysCallId::ChannelTransact => 0x0001u16,
        SysCallId::ChannelRead => 0x0002u16,
        SysCallId::ChannelRespond => 0x0003u16,
        SysCallId::InterruptAck => 0x0004u16,
        SysCallId::InterruptControl => 0x0005u16,
        SysCallId::InterruptStatus => 0x0006u16,
        SysCallId::DebugPutc => 0xf000u16,
        SysCallId::DebugShutdown => 0xf001u16,
        SysCallId::DebugLog => 0xf002u16,
        SysCallId::DebugNop => 0xf003u16,
        SysCallId::DebugTriggerInterrupt => 0xf004u16,
    }
}

impl SysCallId {
    /// The number of this system call.
    pub fn number(self) -> (r: u16)
        ensures
            r == syscall_number(self),
    {
        match self {
            SysCallId::ObjectWait => 0x0000,
            SysCallId::ChannelTransact => 0x0001,
            SysCallId::ChannelRead => 0x0002,
            SysCallId::ChannelRespond => 0x0003,
            SysCallId::InterruptAck => 0x0004,
            SysCallId::InterruptControl => 0x0005,
            SysCallId::InterruptStatus => 0x0006,
            SysCallId::DebugPutc => 0xf000,
            SysCallId::DebugShutdown => 0xf001,
            SysCallId::DebugLog => 0xf002,
            SysCallId::DebugNop => 0xf003,
            SysCallId::DebugTriggerInterrupt => 0xf004,
        }
    }

    /// The system call with number `value`, or `None` where no system call
    /// has that number.
    pub fn from_number(value: u16) -> (r: Option<SysCallId>)
        ensures
            r matches Some(id) ==> syscall_number(id) == value,
            r is None <==> (forall|id: SysCallId| syscall_number(id) != value),
    {
        let r = if value == 0x0000 {
            Some(SysCallId::ObjectWait)
        } else if value == 0x0001 {
            Some(SysCallId::ChannelTransact)
        } else if value == 0x0002 {
            Some(SysCallId::ChannelRead)
        } else if value == 0x0003 {
            Some(SysCallId::ChannelRespond)
        } else if value == 0x0004 {
            Some(SysCallId::InterruptAck)
        } else if value == 0x0005 {
            Some(SysCallId::InterruptControl)
        } else if value == 0x0006 {
            Some(SysCallId::InterruptStatus)
        } else if value == 0xf000 {
            Some(SysCallId::DebugPutc)
        } else if value == 0xf001 {
            Some(SysCallId::DebugShutdown)
        } else if value == 0xf002 {
            Some(SysCallId::DebugLog)
        } else if value == 0xf003 {
            Some(SysCallId::DebugNop)
        } else if value == 0xf004 {
            Some(SysCallId::DebugTriggerInterrupt)
        } else {
            None
        };
        proof {
            if r is None {
                assert forall|id: SysCallId| syscall_number(id) != value by {
                    match id {
                        SysCallId::ObjectWait => {},
                        SysCallId::ChannelTransact => {},
                        SysCallId::ChannelRead => {},
                        SysCallId::ChannelRespond => {},
                        SysCallId::InterruptAck => {},
                        SysCallId::InterruptControl => {},
                        SysCallId::InterruptStatus => {},
                        SysCallId::DebugPutc => {},
                        SysCallId::DebugShutdown => {},
                        SysCallId::DebugLog => {},
                        SysCallId::DebugNop => {},
                        SysCallId::DebugTriggerInterrupt => {},
                    }
                }
            }
        }
        r
    }
}

/// The number of each system call, as the ABI defines it.
pub proof fn lemma_syscall_numbers()
    ensures
        syscall_number(SysCallId::ObjectWait) == 0x0000,
        syscall_number(SysCallId::ChannelTransact) == 0x0001,
        syscall_number(SysCallId::ChannelRead) == 0x0002,
        syscall_number(SysCallId::ChannelRespond) == 0x0003,
        syscall_number(SysCallId::InterruptAck) == 0x0004,
        syscall_number(SysCallId::InterruptControl) == 0x0005,
        syscall_number(SysCallId::InterruptStatus) == 0x0006,
        syscall_number(SysCallId::DebugPutc) == 0xf000,
        syscall_number(SysCallId::DebugShutdown) == 0xf001,
        syscall_number(SysCallId::DebugLog) == 0xf002,
        syscall_number(SysCallId::DebugNop) == 0xf003,
        syscall_number(SysCallId::DebugTriggerInterrupt) == 0xf004,
{
}

/// Two system calls with the same number are the same system call, so a
/// number read back with `from_number` names the call it was made from.
pub proof fn lemma_syscall_number_round_trip(id: SysCallId, other: SysCallId)
    ensures
        syscall_number(id) == syscall_number(other) ==> id == other,
{
}

/// The raw value a system call returns: a non-negative value on success, the
/// negated error code on failure.
pub struct SysCallReturnValue(pub i64);

/// The code carried by a negative return value, as the user side reads it:
/// the negated value, cut to 32 bits.
pub open spec fn returned_error_code(value: i64) -> int {
    (-(value as int)) % 0x1_0000_0000
}

/// Whether a return value can be read back: it is a success, or a failure
/// whose code names an error.
pub open spec fn is_decodable(value: i64) -> bool {
    value >= 0 || is_error_code(returned_error_code(value))
}

/// The success value of a return value cut to 32 bits.
pub open spec fn returned_u32(value: i64) -> u32 {
    ((value as int) % 0x1_0000_0000) as u32
}

/// A return value read as a result with no value.
pub open spec fn decoded_unit(value: i64) -> Result<(), Error> {
    if value < 0 {
        Err(error_of_code(returned_error_code(value)))
    } else {
        Ok(())
    }
}

/// A return value read as a result carrying a `u32`.
pub open spec fn decoded_u32(value: i64) -> Result<u32, Error> {
    if value < 0 {
        Err(error_of_code(returned_error_code(value)))
    } else {
        Ok(returned_u32(value))
    }
}

/// A return value read as a result carrying signals, every bit kept.
pub open spec fn decoded_signals(value: i64) -> Result<Signals, Error> {
    if value < 0 {
        Err(error_of_code(returned_error_code(value)))
    } else {
        Ok(Signals::with_bits(returned_u32(value)))
    }
}

/// A return value read as a result carrying interrupt status, bits that
/// name no status flag dropped.
pub open spec fn decoded_interrupt_status(value: i64) -> Result<InterruptStatus, Error> {
    if value < 0 {
        Err(error_of_code(returned_error_code(value)))
    } else {
        Ok(InterruptStatus::with_bits(returned_u32(value) & interrupt_status_all_bits()))
    }
}

/// A `u64` read as the `i64` with the same bits.
pub open spec fn u64_as_i64(val: u64) -> i64 {
    if val <= 0x7fff_ffff_ffff_ffff {
        val as i64
    } else {
        (val - 0x1_0000_0000_0000_0000) as i64
    }
}

/// The return value the kernel produces for a result.
pub open spec fn encoded_result(result: Result<u64, Error>) -> i64 {
    match result {
        Ok(val) => u64_as_i64(val),
        Err(e) => (-error_code(e)) as i64,
    }
}

impl SysCallReturnValue {
    proof fn lemma_error_code_of_negative(value: i64)
        requires
            value < 0,
            is_error_code(returned_error_code(value)),
        ensures
            value > i64::MIN,
            returned_error_code(value) == (-(value as int)) % 0x1_0000_0000,
    {
        if value == i64::MIN {
            assert(returned_error_code(value) == 0);
        }
    }

    fn error_of(value: i64) -> (r: Error)
        requires
            value < 0,
            is_error_code(returned_error_code(value)),
        ensures
            r == error_of_code(returned_error_code(value)),
    {
        proof {
            Self::lemma_error_code_of_negative(value);
        }
        let negated: i64 = -value;
        let code: u32 = (negated % 0x1_0000_0000) as u32;
        Error::from_code(code)
    }

    fn low_u32(value: i64) -> (r: u32)
        requires
            value >= 0,
        ensures
            r == returned_u32(value),
    {
        (value % 0x1_0000_0000) as u32
    }

    /// Reads the value as a result with no value: success for a
    /// non-negative value, else the error whose code the value negates.
    pub fn to_result_unit(self) -> (r: Result<(), Error>)
        requires
            is_decodable(self.0),
        ensures
            r == decoded_unit(self.0),
    {
        let value = self.0;
        if value < 0 {
            Err(Self::error_of(value))
        } else {
            Ok(())
        }
    }

    /// Reads the value as a result carrying its low 32 bits.
    pub fn to_result_u32(self) -> (r: Result<u32, Error>)
        requires
            is_decodable(self.0),
        ensures
            r == decoded_u32(self.0),
    {
        let value = self.0;
        if value < 0 {
            Err(Self::error_of(value))
        } else {
            Ok(Self::low_u32(value))
        }
    }

    /// Reads the value as a result carrying signals: the low 32 bits, every
    /// bit kept.
    pub fn to_result_signals(self) -> (r: Result<Signals, Error>)
        requires
            is_decodable(self.0),
        ensures
            r == decoded_signals(self.0),
    {
        broadcast use group_flag_bits;

        let value = self.0;
        if value < 0 {
            Err(Self::error_of(value))
        } else {
            Ok(Signals::from_bits_retain(Self::low_u32(value)))
        }
    }

    /// Reads the value as a result carrying interrupt status: the low 32
    /// bits, with bits that name no status flag dropped.
    pub fn to_result_interrupt_status(self) -> (r: Result<InterruptStatus, Error>)
        requires
            is_decodable(self.0),
        ensures
            r == decoded_interrupt_status(self.0),
    {
        broadcast use group_flag_bits;

        let value = self.0;
        if value < 0 {
            Err(Self::error_of(value))
        } else {
            Ok(InterruptStatus::from_bits_truncate(Self::low_u32(value)))
        }
    }
}

impl From<Result<u64, Error>> for SysCallReturnValue {
    fn from(value: Result<u64, Error>) -> (r: Self) {
        match value {
            Ok(val) => {
                if val <= 0x7fff_ffff_ffff_ffff {
                    SysCallReturnValue(val as i64)
                } else {
                    let high: i64 = (val - 0x8000_0000_0000_0000) as i64;
                    SysCallReturnValue(high - 0x7fff_ffff_ffff_ffff - 1)
                }
            },
            Err(error) => SysCallReturnValue(-(error.code() as i64)),
        }
    }
}

impl vstd::std_specs::convert::FromSpecImpl<Result<u64, Error>> for SysCallReturnValue {
    open spec fn obeys_from_spec() -> bool {
        true
    }

    open spec fn from_spec(v: Result<u64, Error>) -> SysCallReturnValue {
        SysCallReturnValue(encoded_result(v))
    }
}

/// A failure that the kernel returns reads back on the user side as the
/// same failure, whichever kind of result the system call has.
pub proof fn lemma_error_survives_return(e: Error)
    ensures
        is_decodable(encoded_result(Err(e))),
        decoded_unit(encoded_result(Err(e))) == Err::<(), Error>(e),
        decoded_u32(encoded_result(Err(e))) == Err::<u32, Error>(e),
        decoded_signals(encoded_result(Err(e))) == Err::<Signals, Error>(e),
        decoded_interrupt_status(encoded_result(Err(e))) == Err::<InterruptStatus, Error>(e),
{
    crate::status::lemma_error_code_round_trip(e);
    let v = encoded_result(Err(e));
    assert(returned_error_code(v) == error_code(e));
}

/// A success value that fits the signed return value reads back on the user
/// side as a success, carrying the value cut to 32 bits.
pub proof fn lemma_success_survives_return(val: u64)
    requires
        val <= i64::MAX,
    ensures
        is_decodable(encoded_result(Ok(val))),
        decoded_unit(encoded_result(Ok(val))) == Ok::<(), Error>(()),
        decoded_u32(encoded_result(Ok(val))) == Ok::<u32, Error>((val % 0x1_0000_0000) as u32),
{
}

/// Signals returned by the kernel read back as the same signals.
pub proof fn lemma_signals_survive_return(s: Signals)
    ensures
        decoded_signals(encoded_result(Ok(s@ as u64))) == Ok::<Signals, Error>(s),
{
    Signals::lemma_with_bits_of(s);
}

/// An interrupt status returned by the kernel reads back as the same
/// status, where it holds only named status flags.
pub proof fn lemma_interrupt_status_survives_return(st: InterruptStatus)
    requires
        st@ & !interrupt_status_all_bits() == 0,
    ensures
        decoded_interrupt_status(encoded_result(Ok(st@ as u64))) == Ok::<InterruptStatus, Error>(st),
{
    let b = st@;
    assert(b & 7u32 == b) by (bit_vector)
        requires
            b & !7u32 == 0u32,
    ;
    InterruptStatus::lemma_with_bits_of(st);
}

/// Return value of the `object_wait` system call.
pub struct WaitReturn {
    /// Status of the wait.
    pub status: isize,
    /// Signals pending on this object.
    pub pending_signals: Signals,
    /// `user_data` of the wait group member.
    pub wait_group_user_data: usize,
    /// Signals pending on the wait group member.
    pub wait_group_pending_signals: Signals,
}

} // verus!
