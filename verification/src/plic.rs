//! Register arithmetic of the RISC-V platform-level interrupt controller
//! (PLIC).
//!
//! All PLIC registers are 32 bits wide.  The priority registers start at the
//! controller's base address, one per interrupt source; the pending and
//! enable registers hold one bit per source, 32 sources to a register; the
//! claim/complete register of the one supported context lies at
//! 0x200004.  This module computes the addresses and the values written; the
//! volatile reads and writes themselves are done by the caller.

use vstd::prelude::*;

verus! {

/// The RISC-V platform-level interrupt controller.
pub struct Plic {}

impl Plic {
    pub fn new() -> (r: Self) {
        Plic {}
    }
}

/// A source of the PLIC's base address.  Only PLIC contexts implement it,
/// so that only the PLIC can be passed to its block registers.
pub trait PlicBaseAddress {
    /// The base address this value stands for.
    spec fn base(&self) -> int;

    /// The PLIC's base address.
    fn base_address(&self) -> (r: usize)
        ensures
            r as int == self.base(),
    ;
}

/// A PLIC context.  Only the first context (that of the first hart) is
/// supported.
pub struct Context {
    base_address: usize,
}

impl Context {
    /// The context of a PLIC whose registers start at `base_address`.
    pub fn new(base_address: usize) -> (r: Context)
        ensures
            r.base() == base_address,
    {
        Context { base_address }
    }
}

impl PlicBaseAddress for Context {
    closed spec fn base(&self) -> int {
        self.base_address as int
    }

    fn base_address(&self) -> (r: usize) {
        self.base_address
    }
}

/// A write of `value` to the 32-bit register at `address`.
#[derive(Clone, Copy, Debug, PartialEq, Eq, Structural)]
pub struct RegisterWrite {
    pub address: usize,
    pub value: u32,
}

/// Offset of the priority registers from the base address.
pub open spec fn ipr_base_offset() -> int {
    0
}

/// Offset of the pending registers from the base address.
pub open spec fn pending_base_offset() -> int {
    0x1000
}

/// Offset of the enable registers from the base address.
pub open spec fn ier_base_offset() -> int {
    0x2000
}

/// Offset of the claim/complete register from the base address.
pub open spec fn icr_offset() -> int {
    0x20_0004
}

/// Address of the priority register of source `irq`.
pub open spec fn ipr_address(base: int, irq: u32) -> int {
    base + ipr_base_offset() + irq * 4
}

/// Address of the enable register that holds the bit of source `irq`.
pub open spec fn ier_address(base: int, irq: u32) -> int {
    base + ier_base_offset() + 4 * (irq / 32)
}

/// Address of the pending register that holds the bit of source `irq`.
pub open spec fn pending_address(base: int, irq: u32) -> int {
    base + pending_base_offset() + 4 * (irq / 32)
}

/// The bit of source `irq` within its 32-bit enable or pending register.
pub open spec fn source_bit(irq: u32) -> u32 {
    1u32 << (irq % 32)
}

/// Whether the bit of source `irq` is set in the register value `bits`.
pub open spec fn source_bit_set(bits: u32, irq: u32) -> bool {
    bits & source_bit(irq) != 0
}

/// The enable register value `enabled_sources` with the bit of source `irq`
/// set (`enable`) or cleared.
pub open spec fn updated_sources(enabled_sources: u32, irq: u32, enable: bool) -> u32 {
    if enable {
        enabled_sources | source_bit(irq)
    } else {
        enabled_sources & !source_bit(irq)
    }
}

/// Interrupt priority registers.
pub struct Ipr {}

impl Ipr {
    /// The address of the priority register of source `irq`.
    pub fn offset<A: PlicBaseAddress>(&self, addr: &A, irq: u32) -> (r: usize)
        requires
            ipr_address(addr.base(), irq) <= usize::MAX,
        ensures
            r == ipr_address(addr.base(), irq),
    {
        let base = addr.base_address();
        base + 0 + (irq as usize * 4)
    }
}

/// Interrupt enable registers.
pub struct Ier {}

impl Ier {
    /// The address of the enable register that holds the bit of source
    /// `irq`.
    pub fn offset<A: PlicBaseAddress>(&self, addr: &A, irq: u32) -> (r: usize)
        requires
            ier_address(addr.base(), irq) <= usize::MAX,
        ensures
            r == ier_address(addr.base(), irq),
    {
        let base = addr.base_address();
        base + 0x2000 + (4 * (irq as usize / 32))
    }
}

/// Interrupt claim/complete register.
pub struct Icr {}

impl Icr {
    /// The address of the claim/complete register.
    pub fn offset<A: PlicBaseAddress>(&self, addr: &A) -> (r: usize)
        requires
            addr.base() + icr_offset() <= usize::MAX,
        ensures
            r == addr.base() + icr_offset(),
    {
        let base = addr.base_address();
        base + 0x20_0004
    }
}

/// The address of the pending register that holds the bit of source `irq`.
pub fn interrupt_pending_address<A: PlicBaseAddress>(addr: &A, irq: u32) -> (r: usize)
    requires
        pending_address(addr.base(), irq) <= usize::MAX,
    ensures
        r == pending_address(addr.base(), irq),
{
    let base = addr.base_address();
    let reg_offset = (irq / 32) as usize;
    base + 0x1000 + (reg_offset * 4)
}

/// The bit of source `irq` within its 32-bit enable or pending register.
pub fn source_bitmask(irq: u32) -> (r: u32)
    ensures
        r == source_bit(irq),
{
    1u32 << (irq % 32)
}

/// Enables (`enable`) or disables source `irq`: the write to its enable
/// register, given `enabled_sources`, the value read from that register.
/// Only the bit of `irq` changes.
pub fn set_interrupt_enable<A: PlicBaseAddress>(
    addr: &A,
    irq: u32,
    enabled_sources: u32,
    enable: bool,
) -> (r: RegisterWrite)
    requires
        ier_address(addr.base(), irq) <= usize::MAX,
    ensures
        r.address == ier_address(addr.base(), irq),
        r.value == updated_sources(enabled_sources, irq, enable),
{
    let ier = Ier {};
    let bitmask = source_bitmask(irq);
    let new_enabled_sources = if enable {
        enabled_sources | bitmask
    } else {
        enabled_sources & !bitmask
    };
    RegisterWrite { address: ier.offset(addr, irq), value: new_enabled_sources }
}

/// Whether source `irq` is enabled, given `enabled_sources`, the value read
/// from its enable register.
pub fn get_interrupt_enabled(enabled_sources: u32, irq: u32) -> (r: bool)
    ensures
        r == source_bit_set(enabled_sources, irq),
{
    let bitmask = source_bitmask(irq);
    (enabled_sources & bitmask) != 0
}

/// Whether source `irq` is pending, given `pending_bits`, the value read
/// from its pending register.
pub fn get_interrupt_pending(pending_bits: u32, irq: u32) -> (r: bool)
    ensures
        r == source_bit_set(pending_bits, irq),
{
    let bit_index = irq % 32;
    (pending_bits & (1u32 << bit_index)) != 0
}

/// Sets the global priority threshold: the write to the priority register
/// of source 0, which is reserved.
pub fn set_global_priority<A: PlicBaseAddress>(addr: &A, priority: u32) -> (r: RegisterWrite)
    requires
        ipr_address(addr.base(), 0) <= usize::MAX,
    ensures
        r.address == ipr_address(addr.base(), 0),
        r.value == priority,
{
    let ipr = Ipr {};
    RegisterWrite { address: ipr.offset(addr, 0), value: priority }
}

/// Sets the priority of source `irq`: the write to its priority register.
pub fn set_interrupt_priority<A: PlicBaseAddress>(addr: &A, irq: u32, priority: u32) -> (r: RegisterWrite)
    requires
        ipr_address(addr.base(), irq) <= usize::MAX,
    ensures
        r.address == ipr_address(addr.base(), irq),
        r.value == priority,
{
    let ipr = Ipr {};
    RegisterWrite { address: ipr.offset(addr, irq), value: priority }
}

/// Releases the claim on source `irq`: the write of its number to the
/// claim/complete register.
pub fn complete_claim<A: PlicBaseAddress>(addr: &A, irq: u32) -> (r: RegisterWrite)
    requires
        addr.base() + icr_offset() <= usize::MAX,
    ensures
        r.address == addr.base() + icr_offset(),
        r.value == irq,
{
    let icr = Icr {};
    RegisterWrite { address: icr.offset(addr), value: irq }
}

/// Priority given to every source at initialization: 1, the lowest.
pub const PLIC_IRQ_PRIORITY: u32 = 1;

/// Global priority threshold set at initialization: 0, so that every
/// enabled source can interrupt.
pub const PLIC_GLOBAL_PRIORITY: u32 = 0;

/// The first source that initialization sets up; source 0 is reserved.
pub const PLIC_FIRST_SOURCE: u32 = 1;

/// Initialization of source `irq`: the writes that disable it (given
/// `enabled_sources`, the value read from its enable register) and then give
/// it the lowest priority.  It is up to a kernel driver or interrupt object
/// to enable the source, and optionally change its priority.
pub fn init_source<A: PlicBaseAddress>(addr: &A, irq: u32, enabled_sources: u32) -> (r: (
    RegisterWrite,
    RegisterWrite,
))
    requires
        ier_address(addr.base(), irq) <= usize::MAX,
        ipr_address(addr.base(), irq) <= usize::MAX,
    ensures
        r.0.address == ier_address(addr.base(), irq),
        r.0.value == updated_sources(enabled_sources, irq, false),
        r.1.address == ipr_address(addr.base(), irq),
        r.1.value == PLIC_IRQ_PRIORITY,
{
    let disable = set_interrupt_enable(addr, irq, enabled_sources, false);
    let priority = set_interrupt_priority(addr, irq, PLIC_IRQ_PRIORITY);
    (disable, priority)
}

/// One step of the PLIC's initialization, over sources `PLIC_FIRST_SOURCE`,
/// `PLIC_FIRST_SOURCE + 1`, and so on: for a source below `max_irqs`, the
/// number of sources, the writes of `init_source` (given `enabled_sources`,
/// the value read from its enable register); for any later source, none,
/// which ends the initialization of the sources.
pub fn early_init_step<A: PlicBaseAddress>(
    addr: &A,
    irq: u32,
    max_irqs: u32,
    enabled_sources: u32,
) -> (r: Option<(RegisterWrite, RegisterWrite)>)
    requires
        PLIC_FIRST_SOURCE <= irq,
        irq < max_irqs ==> ier_address(addr.base(), irq) <= usize::MAX,
        irq < max_irqs ==> ipr_address(addr.base(), irq) <= usize::MAX,
    ensures
        irq >= max_irqs ==> r is None,
        irq < max_irqs ==> (r matches Some(w) && w.0.address == ier_address(addr.base(), irq)
            && w.0.value == updated_sources(enabled_sources, irq, false) && w.1.address
            == ipr_address(addr.base(), irq) && w.1.value == PLIC_IRQ_PRIORITY),
{
    if irq >= max_irqs {
        None
    } else {
        Some(init_source(addr, irq, enabled_sources))
    }
}

/// The entry of the interrupt table to run for a claimed source: none for
/// claim value 0, which means that no interrupt is pending; otherwise the
/// entry whose index is the source number.
pub fn claim_table_index(claim: u32) -> (r: Option<usize>)
    ensures
        claim == 0 ==> r is None,
        claim != 0 ==> r == Some(claim as usize),
{
    if claim == 0 {
        None
    } else {
        Some(claim as usize)
    }
}

/// The registers of a PLIC: the 32-bit value at each address.
pub type PlicRegisters = spec_fn(int) -> u32;

/// The registers after `value` is written to `address`.
pub open spec fn written(regs: PlicRegisters, address: int, value: u32) -> PlicRegisters {
    |a: int|
        if a == address {
            value
        } else {
            regs(a)
        }
}

/// The registers after the writes of `init_source` for source `irq`, the
/// value of its enable register read from `regs`.
pub open spec fn init_source_regs(regs: PlicRegisters, base: int, irq: u32) -> PlicRegisters {
    let disabled = written(
        regs,
        ier_address(base, irq),
        updated_sources(regs(ier_address(base, irq)), irq, false),
    );
    written(disabled, ipr_address(base, irq), PLIC_IRQ_PRIORITY)
}

/// The registers after the steps of `early_init_step` from source `irq` on,
/// until it gives no writes.
pub open spec fn init_sources_regs(
    regs: PlicRegisters,
    base: int,
    irq: u32,
    max_irqs: u32,
) -> PlicRegisters
    decreases max_irqs - irq,
{
    if irq >= max_irqs {
        regs
    } else {
        init_sources_regs(init_source_regs(regs, base, irq), base, (irq + 1) as u32, max_irqs)
    }
}

/// The registers after the PLIC's initialization: every source from
/// `PLIC_FIRST_SOURCE` on set up step by step, then the global priority
/// threshold written.
pub open spec fn early_init_regs(regs: PlicRegisters, base: int, max_irqs: u32) -> PlicRegisters {
    written(
        init_sources_regs(regs, base, PLIC_FIRST_SOURCE, max_irqs),
        ipr_address(base, 0),
        PLIC_GLOBAL_PRIORITY,
    )
}

proof fn lemma_init_sources(regs: PlicRegisters, base: int, irq: u32, max_irqs: u32)
    requires
        1 <= irq,
        max_irqs <= 1024,
    ensures
        forall|j: u32|
            irq <= j < max_irqs ==> !source_bit_set(
                #[trigger] init_sources_regs(regs, base, irq, max_irqs)(ier_address(base, j)),
                j,
            ),
        forall|j: u32|
            irq <= j < max_irqs ==> #[trigger] init_sources_regs(regs, base, irq, max_irqs)(
                ipr_address(base, j),
            ) == PLIC_IRQ_PRIORITY,
        forall|j: u32|
            j < irq || j >= max_irqs ==> source_bit_set(
                #[trigger] init_sources_regs(regs, base, irq, max_irqs)(ier_address(base, j)),
                j,
            ) == source_bit_set(regs(ier_address(base, j)), j),
        forall|j: u32|
            j < irq || max_irqs <= j < 1024 ==> #[trigger] init_sources_regs(
                regs,
                base,
                irq,
                max_irqs,
            )(ipr_address(base, j)) == regs(ipr_address(base, j)),
    decreases max_irqs - irq,
{
    if irq < max_irqs {
        let regs1 = init_source_regs(regs, base, irq);
        let next = (irq + 1) as u32;
        lemma_init_sources(regs1, base, next, max_irqs);
        let f = init_sources_regs(regs, base, irq, max_irqs);
        assert(f == init_sources_regs(regs1, base, next, max_irqs));
        let w = regs(ier_address(base, irq));
        lemma_enable_reads_back(w, irq, false);
        assert(regs1(ier_address(base, irq)) == updated_sources(w, irq, false));
        assert forall|j: u32| irq <= j < max_irqs implies !source_bit_set(
            #[trigger] f(ier_address(base, j)),
            j,
        ) && f(ipr_address(base, j)) == PLIC_IRQ_PRIORITY by {
            if j == irq {
                assert(source_bit_set(f(ier_address(base, j)), j) == source_bit_set(
                    regs1(ier_address(base, j)),
                    j,
                ));
                assert(f(ipr_address(base, j)) == regs1(ipr_address(base, j)));
            }
        }
        assert forall|j: u32| j < irq || j >= max_irqs implies source_bit_set(
            #[trigger] f(ier_address(base, j)),
            j,
        ) == source_bit_set(regs(ier_address(base, j)), j) by {
            assert(j < next || j >= max_irqs);
            assert(source_bit_set(f(ier_address(base, j)), j) == source_bit_set(
                regs1(ier_address(base, j)),
                j,
            ));
            if j / 32 == irq / 32 {
                assert(j % 32 != irq % 32);
                lemma_enable_keeps_other_sources(w, irq, j, false);
            }
        }
        assert forall|j: u32| j < irq || max_irqs <= j < 1024 implies #[trigger] f(
            ipr_address(base, j),
        ) == regs(ipr_address(base, j)) by {
            assert(j < next || max_irqs <= j < 1024);
            assert(f(ipr_address(base, j)) == regs1(ipr_address(base, j)));
        }
    }
}

/// The registers after `set_interrupt_enable` for source `irq`, the value of
/// its enable register read from `regs`.
pub open spec fn set_enable_regs(regs: PlicRegisters, base: int, irq: u32, enable: bool) -> PlicRegisters {
    written(regs, ier_address(base, irq), updated_sources(regs(ier_address(base, irq)), irq, enable))
}

/// After `set_interrupt_enable` for source `irq` is written to the
/// registers, `get_interrupt_enabled` on its enable register reads back
/// `enable`, and reads back every other source as it was.
pub proof fn lemma_set_enable_reads_back(regs: PlicRegisters, base: int, irq: u32, enable: bool)
    ensures
        source_bit_set(set_enable_regs(regs, base, irq, enable)(ier_address(base, irq)), irq)
            == enable,
        forall|j: u32|
            j != irq ==> source_bit_set(
                #[trigger] set_enable_regs(regs, base, irq, enable)(ier_address(base, j)),
                j,
            ) == source_bit_set(regs(ier_address(base, j)), j),
{
    let w = regs(ier_address(base, irq));
    lemma_enable_reads_back(w, irq, enable);
    assert forall|j: u32| j != irq implies source_bit_set(
        #[trigger] set_enable_regs(regs, base, irq, enable)(ier_address(base, j)),
        j,
    ) == source_bit_set(regs(ier_address(base, j)), j) by {
        if j / 32 == irq / 32 {
            lemma_enable_keeps_other_sources(w, irq, j, enable);
        }
    }
}

/// Setting a source's enable bit twice through its enable register leaves
/// the registers as setting it once does.
pub proof fn lemma_set_enable_twice(regs: PlicRegisters, base: int, irq: u32, enable: bool)
    ensures
        set_enable_regs(set_enable_regs(regs, base, irq, enable), base, irq, enable)
            == set_enable_regs(regs, base, irq, enable),
{
    let w = regs(ier_address(base, irq));
    lemma_enable_last_write_wins(w, irq, enable, enable);
    assert(set_enable_regs(set_enable_regs(regs, base, irq, enable), base, irq, enable)
        =~= set_enable_regs(regs, base, irq, enable));
}

/// The PLIC's initialization, run over its registers step by step from
/// `PLIC_FIRST_SOURCE`, leaves exactly the sources `1..max_irqs` disabled
/// with the lowest priority and the global priority threshold at 0: the
/// enable bit of the reserved source 0 and of every source from `max_irqs`
/// on, and the priority of every source from `max_irqs` on, are as they
/// were.  The PLIC has at most 1024 sources.
pub proof fn lemma_early_init_end_state(regs: PlicRegisters, base: int, max_irqs: u32)
    requires
        max_irqs <= 1024,
    ensures
        forall|j: u32|
            PLIC_FIRST_SOURCE <= j < max_irqs ==> !source_bit_set(
                #[trigger] early_init_regs(regs, base, max_irqs)(ier_address(base, j)),
                j,
            ),
        forall|j: u32|
            PLIC_FIRST_SOURCE <= j < max_irqs ==> #[trigger] early_init_regs(regs, base, max_irqs)(
                ipr_address(base, j),
            ) == PLIC_IRQ_PRIORITY,
        forall|j: u32|
            j < PLIC_FIRST_SOURCE || j >= max_irqs ==> source_bit_set(
                #[trigger] early_init_regs(regs, base, max_irqs)(ier_address(base, j)),
                j,
            ) == source_bit_set(regs(ier_address(base, j)), j),
        forall|j: u32|
            0 < j && max_irqs <= j < 1024 ==> #[trigger] early_init_regs(regs, base, max_irqs)(
                ipr_address(base, j),
            ) == regs(ipr_address(base, j)),
        early_init_regs(regs, base, max_irqs)(ipr_address(base, 0)) == PLIC_GLOBAL_PRIORITY,
{
    lemma_init_sources(regs, base, PLIC_FIRST_SOURCE, max_irqs);
}

/// A source enabled or disabled through its enable register reads back as
/// enabled or disabled.
pub proof fn lemma_enable_reads_back(enabled_sources: u32, irq: u32, enable: bool)
    ensures
        source_bit_set(updated_sources(enabled_sources, irq, enable), irq) == enable,
{
    let w = enabled_sources;
    let s = irq % 32;
    assert(s < 32);
    assert((w | (1u32 << s)) & (1u32 << s) != 0u32) by (bit_vector)
        requires
            s < 32u32,
    ;
    assert((w & !(1u32 << s)) & (1u32 << s) == 0u32) by (bit_vector);
}

/// Enabling or disabling a source leaves every other source of the same
/// enable register as it was.
pub proof fn lemma_enable_keeps_other_sources(enabled_sources: u32, irq: u32, other: u32, enable: bool)
    requires
        other % 32 != irq % 32,
    ensures
        source_bit_set(updated_sources(enabled_sources, irq, enable), other) == source_bit_set(
            enabled_sources,
            other,
        ),
{
    let w = enabled_sources;
    let s = irq % 32;
    let t = other % 32;
    assert(s < 32 && t < 32);
    assert(((w | (1u32 << s)) & (1u32 << t) != 0u32) == (w & (1u32 << t) != 0u32)) by (bit_vector)
        requires
            s < 32u32,
            t < 32u32,
            s != t,
    ;
    assert(((w & !(1u32 << s)) & (1u32 << t) != 0u32) == (w & (1u32 << t) != 0u32)) by (bit_vector)
        requires
            s < 32u32,
            t < 32u32,
            s != t,
    ;
}

/// Of two successive enables or disables of one source, the second decides:
/// in particular enabling twice is enabling once, and disabling twice is
/// disabling once.
pub proof fn lemma_enable_last_write_wins(enabled_sources: u32, irq: u32, first: bool, second: bool)
    ensures
        updated_sources(updated_sources(enabled_sources, irq, first), irq, second)
            == updated_sources(enabled_sources, irq, second),
{
    let w = enabled_sources;
    let b = source_bit(irq);
    assert(((w | b) | b) == (w | b)) by (bit_vector);
    assert(((w & !b) | b) == (w | b)) by (bit_vector);
    assert(((w | b) & !b) == (w & !b)) by (bit_vector);
    assert(((w & !b) & !b) == (w & !b)) by (bit_vector);
}

/// Sources in different groups of 32 have their enable bits in different
/// registers, so enabling one never writes the register of the other.
pub proof fn lemma_enable_registers_distinct(base: int, irq: u32, other: u32)
    requires
        irq / 32 != other / 32,
    ensures
        ier_address(base, irq) != ier_address(base, other),
        pending_address(base, irq) != pending_address(base, other),
{
}

/// Bit `k` of the 32-bit register value `bits`, read by shifting.
pub open spec fn bit_at(bits: u32, k: u32) -> bool {
    (bits >> k) & 1u32 == 1u32
}

/// The bit of source `irq` is bit `irq % 32` of its register and no other:
/// of the 32 bits of `source_bit(irq)`, exactly bit `irq % 32` is set.
pub proof fn lemma_source_bit_position(irq: u32)
    ensures
        forall|k: u32| k < 32 ==> (#[trigger] bit_at(source_bit(irq), k) <==> k == irq % 32),
{
    let s = irq % 32;
    assert forall|k: u32| k < 32 implies (#[trigger] bit_at(source_bit(irq), k) <==> k == s) by {
        assert(((1u32 << s) >> k) & 1u32 == 1u32 <==> k == s) by (bit_vector)
            requires
                s < 32u32,
                k < 32u32,
        ;
    }
}

/// Whether source `irq` is set in a register value (enabled, for an enable
/// register; pending, for a pending register) is bit `irq % 32` of it.
pub proof fn lemma_source_bit_set_is_bit(bits: u32, irq: u32)
    ensures
        source_bit_set(bits, irq) <==> bit_at(bits, irq % 32),
{
    let s = irq % 32;
    assert((bits & (1u32 << s) != 0u32) <==> ((bits >> s) & 1u32 == 1u32)) by (bit_vector)
        requires
            s < 32u32,
    ;
}

/// Enabling or disabling source `irq` through a read-modify-write of its
/// enable register sets bit `irq % 32` to `enable` and keeps every other
/// bit of the value read.
pub proof fn lemma_updated_sources_bits(enabled_sources: u32, irq: u32, enable: bool)
    ensures
        forall|k: u32|
            k < 32 ==> #[trigger] bit_at(updated_sources(enabled_sources, irq, enable), k) == if k
                == irq % 32 {
                enable
            } else {
                bit_at(enabled_sources, k)
            },
{
    let w = enabled_sources;
    let s = irq % 32;
    assert forall|k: u32| k < 32 implies #[trigger] bit_at(
        updated_sources(enabled_sources, irq, enable),
        k,
    ) == if k == s {
        enable
    } else {
        bit_at(w, k)
    } by {
        assert((((w | (1u32 << s)) >> k) & 1u32 == 1u32) == (k == s || (w >> k) & 1u32 == 1u32))
            by (bit_vector)
            requires
                s < 32u32,
                k < 32u32,
        ;
        assert((((w & !(1u32 << s)) >> k) & 1u32 == 1u32) == (k != s && (w >> k) & 1u32 == 1u32))
            by (bit_vector)
            requires
                s < 32u32,
                k < 32u32,
        ;
    }
}

} // verus!
