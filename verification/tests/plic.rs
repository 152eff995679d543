use pw_kernel::plic::{
    claim_table_index, complete_claim, early_init_step, get_interrupt_enabled, get_interrupt_pending, init_source,
    interrupt_pending_address, set_global_priority, set_interrupt_enable, set_interrupt_priority,
    source_bitmask, Context, Icr, Ier, Ipr, Plic, RegisterWrite, PLIC_FIRST_SOURCE,
    PLIC_GLOBAL_PRIORITY, PLIC_IRQ_PRIORITY,
};

const BASE: usize = 0x0c00_0000;

#[test]
fn register_addresses() {
    let ctx = Context::new(BASE);
    assert_eq!(Ipr {}.offset(&ctx, 0), BASE);
    assert_eq!(Ipr {}.offset(&ctx, 10), BASE + 40);
    assert_eq!(Ier {}.offset(&ctx, 10), BASE + 0x2000);
    assert_eq!(Ier {}.offset(&ctx, 31), BASE + 0x2000);
    assert_eq!(Ier {}.offset(&ctx, 32), BASE + 0x2004);
    assert_eq!(Ier {}.offset(&ctx, 70), BASE + 0x2008);
    assert_eq!(interrupt_pending_address(&ctx, 70), BASE + 0x1008);
    assert_eq!(Icr {}.offset(&ctx), BASE + 0x20_0004);
}

#[test]
fn source_bitmasks() {
    assert_eq!(source_bitmask(0), 1);
    assert_eq!(source_bitmask(5), 1 << 5);
    assert_eq!(source_bitmask(37), 1 << 5);
    assert_eq!(source_bitmask(63), 1 << 31);
}

#[test]
fn enable_then_disable_reads_back() {
    let ctx = Context::new(BASE);
    let w = set_interrupt_enable(&ctx, 10, 0, true);
    assert_eq!(w, RegisterWrite { address: BASE + 0x2000, value: 1 << 10 });
    assert!(get_interrupt_enabled(w.value, 10));
    let d = set_interrupt_enable(&ctx, 10, w.value, false);
    assert_eq!(d.value, 0);
    assert!(!get_interrupt_enabled(d.value, 10));
}

#[test]
fn enable_keeps_other_sources() {
    let ctx = Context::new(BASE);
    let w = set_interrupt_enable(&ctx, 33, 0xffff_0000, false);
    assert_eq!(w.value, 0xffff_0000);
    let w = set_interrupt_enable(&ctx, 49, 0xffff_0000, false);
    assert_eq!(w.value, 0xfffd_0000);
    assert!(get_interrupt_enabled(w.value, 50));
    assert!(!get_interrupt_enabled(w.value, 49));
}

#[test]
fn double_enable_and_double_disable() {
    let ctx = Context::new(BASE);
    let once = set_interrupt_enable(&ctx, 7, 0x11, true).value;
    let twice = set_interrupt_enable(&ctx, 7, once, true).value;
    assert_eq!(once, twice);
    let once = set_interrupt_enable(&ctx, 4, 0x11, false).value;
    let twice = set_interrupt_enable(&ctx, 4, once, false).value;
    assert_eq!(once, 0x01);
    assert_eq!(once, twice);
}

#[test]
fn rapid_cycles_end_enabled() {
    let ctx = Context::new(BASE);
    let mut word = 0u32;
    for _ in 0..50 {
        word = set_interrupt_enable(&ctx, 3, word, true).value;
        word = set_interrupt_enable(&ctx, 3, word, false).value;
    }
    word = set_interrupt_enable(&ctx, 3, word, true).value;
    assert_eq!(word, 1 << 3);
}

#[test]
fn pending_bits() {
    assert!(get_interrupt_pending(1 << 9, 41));
    assert!(!get_interrupt_pending(1 << 9, 40));
    assert!(!get_interrupt_pending(0, 0));
}

#[test]
fn priorities_and_claims() {
    let ctx = Context::new(BASE);
    assert_eq!(set_global_priority(&ctx, PLIC_GLOBAL_PRIORITY), RegisterWrite { address: BASE, value: 0 });
    assert_eq!(set_interrupt_priority(&ctx, 3, 7), RegisterWrite { address: BASE + 12, value: 7 });
    assert_eq!(complete_claim(&ctx, 9), RegisterWrite { address: BASE + 0x20_0004, value: 9 });
    assert_eq!(claim_table_index(0), None);
    assert_eq!(claim_table_index(9), Some(9));
}

#[test]
fn init_source_disables_and_sets_lowest_priority() {
    let ctx = Context::new(BASE);
    assert_eq!(PLIC_FIRST_SOURCE, 1);
    assert_eq!(PLIC_IRQ_PRIORITY, 1);
    let (disable, priority) = init_source(&ctx, 34, 0b111);
    assert_eq!(disable, RegisterWrite { address: BASE + 0x2004, value: 0b011 });
    assert_eq!(priority, RegisterWrite { address: BASE + 34 * 4, value: 1 });
    let _ = Plic::new();
}

#[test]
fn early_init_steps_cover_sources_below_max() {
    let ctx = Context::new(BASE);
    let max = 40u32;
    // A model of the enable registers, all sources enabled at first.
    let mut words = [u32::MAX; 2];
    let mut priorities = [7u32; 64];
    let mut irq = PLIC_FIRST_SOURCE;
    while let Some((disable, priority)) = early_init_step(&ctx, irq, max, words[(irq / 32) as usize]) {
        assert_eq!(disable.address, BASE + 0x2000 + 4 * (irq as usize / 32));
        words[(irq / 32) as usize] = disable.value;
        assert_eq!(priority.address, BASE + 4 * irq as usize);
        priorities[irq as usize] = priority.value;
        irq += 1;
    }
    assert_eq!(irq, max);
    // Sources 1..40 disabled; source 0 and sources 40.. untouched.
    assert_eq!(words[0], 1);
    assert_eq!(words[1], 0xffff_ff00);
    assert_eq!(priorities[0], 7);
    assert!(priorities[1..40].iter().all(|p| *p == PLIC_IRQ_PRIORITY));
    assert!(priorities[40..].iter().all(|p| *p == 7));
    assert_eq!(early_init_step(&ctx, 40, 40, 0), None);
    assert_eq!(early_init_step(&ctx, 1, 1, 0), None);
    assert_eq!(early_init_step(&ctx, 5, 0, 0), None);
}
