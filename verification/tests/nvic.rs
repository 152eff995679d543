use pw_kernel::nvic::{interrupts_unmasked, priority_register_address, register_address, register_bit, NVIC_ISER, NVIC_ICPR, register_bit_set, register_index, Nvic, NVIC_IRQ_PRIORITY};

#[test]
fn interrupts_enabled_needs_primask_and_zero_basepri() {
    assert!(interrupts_unmasked(true, 0));
    assert!(!interrupts_unmasked(true, 0x40));
    assert!(!interrupts_unmasked(false, 0));
    assert!(!interrupts_unmasked(false, 0x80));
}

#[test]
fn nvic_register_layout() {
    assert_eq!(register_index(0), 0);
    assert_eq!(register_index(31), 0);
    assert_eq!(register_index(32), 1);
    assert_eq!(register_index(100), 3);
    assert_eq!(register_bit(100), 1 << 4);
    assert!(register_bit_set(1 << 4, 100));
    assert!(!register_bit_set(1 << 4, 101));
    assert_eq!(register_address(0xe000_e100, 5), 0xe000_e100);
    assert_eq!(register_address(0xe000_e100, 100), 0xe000_e10c);
    assert_eq!(NVIC_IRQ_PRIORITY, 0x40);
    let _ = Nvic::new();
}

#[test]
fn nvic_register_addresses() {
    assert_eq!(priority_register_address(0), 0xe000_e400);
    assert_eq!(priority_register_address(37), 0xe000_e425);
    assert_eq!(register_address(NVIC_ISER, 70), 0xe000_e108);
    assert_eq!(register_address(NVIC_ICPR, 3), 0xe000_e280);
}

#[test]
fn set_then_clear_bits_read_back() {
    // A model of one set/clear register pair for interrupts 32..63.
    let mut enabled = 0u32;
    let irq = 40usize;
    enabled |= register_bit(irq);
    assert!(register_bit_set(enabled, irq));
    assert!(!register_bit_set(enabled, 41));
    enabled &= !register_bit(irq);
    assert!(!register_bit_set(enabled, irq));
}
