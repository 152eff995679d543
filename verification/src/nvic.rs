//! Decisions of the Arm Cortex-M nested vectored interrupt controller
//! (NVIC) driver.
//!
//! The NVIC's set-enable, clear-enable, set-pending and clear-pending
//! registers hold one bit per interrupt, 32 interrupts to a register.
//! Writing a 1 bit to a set-enable (set-pending) register enables (pends)
//! that interrupt, writing it to the matching clear register disables
//! (unpends) it, and 0 bits have no effect; reading a set register gives the
//! current enable (pending) bits.  The priority registers hold one byte per
//! interrupt.

use vstd::prelude::*;

verus! {

/// The Arm Cortex-M nested vectored interrupt controller.
pub struct Nvic {}

impl Nvic {
    pub fn new() -> (r: Self) {
        Nvic {}
    }
}

/// Address of the interrupt set-enable registers.
pub const NVIC_ISER: usize = 0xe000_e100;
/// Address of the interrupt clear-enable registers.
pub const NVIC_ICER: usize = 0xe000_e180;
/// Address of the interrupt set-pending registers.
pub const NVIC_ISPR: usize = 0xe000_e200;
/// Address of the interrupt clear-pending registers.
pub const NVIC_ICPR: usize = 0xe000_e280;
/// Address of the interrupt priority registers.
pub const NVIC_IPR: usize = 0xe000_e400;

/// The address of the priority byte of interrupt `irq`.
pub fn priority_register_address(irq: usize) -> (r: usize)
    requires
        NVIC_IPR + irq <= usize::MAX,
    ensures
        r == NVIC_IPR + irq,
{
    NVIC_IPR + irq
}

/// Priority given to every external interrupt at initialization, the same
/// as that of SysTick.
pub const NVIC_IRQ_PRIORITY: u8 = 0b0100_0000;

/// Whether interrupts are enabled, given the PRIMASK state (active means
/// that exceptions of configurable priority are taken) and the BASEPRI
/// register.  A nonzero BASEPRI masks interrupts at and below its level; it
/// is treated as masking all of them.
pub fn interrupts_unmasked(primask_active: bool, basepri: u8) -> (r: bool)
    ensures
        r == (primask_active && basepri == 0),
{
    primask_active && (basepri == 0)
}

/// The address of the register of the bank at `bank` (set-enable,
/// clear-enable, set-pending or clear-pending) that holds the bit of
/// interrupt `irq`.
pub fn register_address(bank: usize, irq: usize) -> (r: usize)
    requires
        bank + 4 * (irq / 32) <= usize::MAX,
    ensures
        r == bank + 4 * (irq / 32),
{
    bank + 4 * register_index(irq)
}

/// The index of the register that holds the bit of interrupt `irq`.
pub fn register_index(irq: usize) -> (r: usize)
    ensures
        r == irq / 32,
{
    irq / 32
}

/// The bit of interrupt `irq` within its register.
pub fn register_bit(irq: usize) -> (r: u32)
    ensures
        r == nvic_bit(irq),
{
    let bit_index = (irq % 32) as u32;
    1u32 << bit_index
}

/// Whether the bit of interrupt `irq` is set in `bits`, a value read from
/// its set-enable or set-pending register.
pub fn register_bit_set(bits: u32, irq: usize) -> (r: bool)
    ensures
        r == (bits & nvic_bit(irq) != 0),
{
    (bits & register_bit(irq)) != 0
}

/// One NVIC state bank, enable or pending: the bits of each register,
/// indexed by register number.
pub type NvicBank = spec_fn(int) -> u32;

/// The bit of interrupt `irq` within its register.
pub open spec fn nvic_bit(irq: usize) -> u32 {
    1u32 << ((irq % 32) as u32)
}

/// Whether interrupt `irq` is set in the bank: what reading its set
/// register and testing the bit with `register_bit_set` gives.
pub open spec fn bank_bit_set(bank: NvicBank, irq: usize) -> bool {
    bank((irq / 32) as int) & nvic_bit(irq) != 0
}

/// The bank after `register_bit(irq)` is written to the set register that
/// holds the bit of `irq` (set-enable for `enable_interrupt`, set-pending for
/// `trigger_interrupt`).
pub open spec fn bank_set(bank: NvicBank, irq: usize) -> NvicBank {
    |i: int|
        if i == (irq / 32) as int {
            bank(i) | nvic_bit(irq)
        } else {
            bank(i)
        }
}

/// The bank after `register_bit(irq)` is written to the clear register that
/// holds the bit of `irq` (clear-enable for `disable_interrupt`,
/// clear-pending for `clear_interrupt_pending`).
pub open spec fn bank_clear(bank: NvicBank, irq: usize) -> NvicBank {
    |i: int|
        if i == (irq / 32) as int {
            bank(i) & !nvic_bit(irq)
        } else {
            bank(i)
        }
}

proof fn lemma_other_bit(w: u32, irq: usize, j: usize)
    requires
        j != irq,
        j / 32 == irq / 32,
    ensures
        ((w | nvic_bit(irq)) & nvic_bit(j) != 0) == (w & nvic_bit(j) != 0),
        ((w & !nvic_bit(irq)) & nvic_bit(j) != 0) == (w & nvic_bit(j) != 0),
{
    let s = (irq % 32) as u32;
    let t = (j % 32) as u32;
    assert(s != t);
    assert(((w | (1u32 << s)) & (1u32 << t) != 0u32) == (w & (1u32 << t) != 0u32)) by (bit_vector)
        requires
            s < 32u32,
            t < 32u32,
            s != t,
    ;
    assert(((w & !(1u32 << s)) & (1u32 << t) != 0u32) == (w & (1u32 << t) != 0u32)) by (bit_vector)
        requires
            s < 32u32,
            t < 32u32,
            s != t,
    ;
}

/// After an interrupt's bit is written to a set register (enabling or
/// pending it), the bank reads back that interrupt as set and every other
/// interrupt as it was.
pub proof fn lemma_bank_set_reads_back(bank: NvicBank, irq: usize)
    ensures
        bank_bit_set(bank_set(bank, irq), irq),
        forall|j: usize|
            j != irq ==> #[trigger] bank_bit_set(bank_set(bank, irq), j) == bank_bit_set(bank, j),
{
    let w = bank((irq / 32) as int);
    let s = (irq % 32) as u32;
    assert((w | (1u32 << s)) & (1u32 << s) != 0u32) by (bit_vector)
        requires
            s < 32u32,
    ;
    assert forall|j: usize| j != irq implies #[trigger] bank_bit_set(bank_set(bank, irq), j)
        == bank_bit_set(bank, j) by {
        if j / 32 == irq / 32 {
            lemma_other_bit(w, irq, j);
        }
    }
}

/// After an interrupt's bit is written to a clear register (disabling or
/// unpending it), the bank reads back that interrupt as clear and every
/// other interrupt as it was.
pub proof fn lemma_bank_clear_reads_back(bank: NvicBank, irq: usize)
    ensures
        !bank_bit_set(bank_clear(bank, irq), irq),
        forall|j: usize|
            j != irq ==> #[trigger] bank_bit_set(bank_clear(bank, irq), j) == bank_bit_set(bank, j),
{
    let w = bank((irq / 32) as int);
    let s = (irq % 32) as u32;
    assert((w & !(1u32 << s)) & (1u32 << s) == 0u32) by (bit_vector);
    assert forall|j: usize| j != irq implies #[trigger] bank_bit_set(bank_clear(bank, irq), j)
        == bank_bit_set(bank, j) by {
        if j / 32 == irq / 32 {
            lemma_other_bit(w, irq, j);
        }
    }
}

/// A user space interrupt masked on handler entry (a clear-enable write) and
/// then acknowledged (a set-enable write) is enabled again, and no other
/// interrupt's enable bit changed on the way.
pub proof fn lemma_mask_then_ack_reenables(enabled: NvicBank, irq: usize)
    ensures
        !bank_bit_set(bank_clear(enabled, irq), irq),
        bank_bit_set(bank_set(bank_clear(enabled, irq), irq), irq),
        forall|j: usize|
            j != irq ==> #[trigger] bank_bit_set(bank_set(bank_clear(enabled, irq), irq), j)
                == bank_bit_set(enabled, j),
{
    lemma_bank_clear_reads_back(enabled, irq);
    lemma_bank_set_reads_back(bank_clear(enabled, irq), irq);
}

/// Bit `k` of the 32-bit register value `bits`, read by shifting.
pub open spec fn nvic_bit_at(bits: u32, k: u32) -> bool {
    (bits >> k) & 1u32 == 1u32
}

/// The bit of interrupt `irq` is bit `irq % 32` of its register and no
/// other: of the 32 bits of `nvic_bit(irq)` (what `register_bit` gives),
/// exactly bit `irq % 32` is set.
pub proof fn lemma_nvic_bit_position(irq: usize)
    ensures
        forall|k: u32| k < 32 ==> (#[trigger] nvic_bit_at(nvic_bit(irq), k) <==> k == irq % 32),
{
    let s = (irq % 32) as u32;
    assert forall|k: u32| k < 32 implies (#[trigger] nvic_bit_at(nvic_bit(irq), k) <==> k == irq
        % 32) by {
        assert(((1u32 << s) >> k) & 1u32 == 1u32 <==> k == s) by (bit_vector)
            requires
                s < 32u32,
                k < 32u32,
        ;
    }
}

/// Whether interrupt `irq` is set in a value read from its set-enable or
/// set-pending register (what `register_bit_set` gives) is bit `irq % 32` of
/// that value.
pub proof fn lemma_nvic_bit_set_is_bit(bits: u32, irq: usize)
    ensures
        (bits & nvic_bit(irq) != 0) <==> nvic_bit_at(bits, (irq % 32) as u32),
{
    let s = (irq % 32) as u32;
    assert((bits & (1u32 << s) != 0u32) <==> ((bits >> s) & 1u32 == 1u32)) by (bit_vector)
        requires
            s < 32u32,
    ;
}

} // verus!
