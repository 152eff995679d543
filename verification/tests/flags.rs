use pw_kernel::syscall_defs::{InterruptControl, InterruptStatus, Signals};

#[test]
fn signal_bits_match_their_positions() {
    assert_eq!(Signals::READABLE().bits(), 1);
    assert_eq!(Signals::WRITEABLE().bits(), 2);
    assert_eq!(Signals::ERROR().bits(), 4);
    assert_eq!(Signals::USER().bits(), 1 << 15);
    assert_eq!(Signals::INTERRUPT_A().bits(), 1 << 16);
    assert_eq!(Signals::INTERRUPT_H().bits(), 1 << 23);
    assert_eq!(Signals::INTERRUPT_P().bits(), 1 << 31);
    assert_eq!(Signals::new().bits(), 0);
    assert_eq!(Signals::all().bits(), 0xffff_8007);
}

#[test]
fn signals_truncate_drops_unnamed_bits() {
    assert_eq!(Signals::from_bits_truncate(0xffff_ffff).bits(), 0xffff_8007);
    assert_eq!(Signals::from_bits_truncate(0x0f).bits(), 0x07);
    assert_eq!(Signals::from_bits_retain(0x0f).bits(), 0x0f);
}

#[test]
fn signal_set_operations() {
    let a = Signals::INTERRUPT_A();
    let b = Signals::INTERRUPT_B();
    let ab = a | b;
    assert_eq!(ab.bits(), 0x3_0000);
    assert_eq!(ab, a.union(b));
    assert!(ab.contains(a));
    assert!(ab.contains(b));
    assert!(!a.contains(ab));
    assert!(ab.intersects(b));
    assert!(!a.intersects(b));
    assert_eq!((ab & b).bits(), b.bits());
    assert_eq!((ab - a).bits(), b.bits());
    assert_eq!(ab.difference(a), b);
    assert!((a & b).is_empty());
    assert!(!ab.is_empty());
    assert!(Signals::empty().is_empty());

    let mut s = Signals::new();
    s.insert(a);
    s.insert(b);
    assert_eq!(s, ab);
    s.remove(a);
    assert_eq!(s, b);
}

#[test]
fn test_interrupt_control_bits() {
    let ctrl = InterruptControl::ENABLE() | InterruptControl::CLEAR_PENDING();
    assert!(ctrl.contains(InterruptControl::ENABLE()));
    assert!(ctrl.contains(InterruptControl::CLEAR_PENDING()));
    assert_eq!(ctrl.bits(), 0b0011);
    assert_eq!(InterruptControl::new().bits(), 0);
    assert!(!InterruptControl::new().contains(InterruptControl::ENABLE()));
    assert_eq!(InterruptControl::from_bits_truncate(0xff).bits(), 0b11);
}

#[test]
fn test_interrupt_status_bits() {
    let status = InterruptStatus::ENABLED() | InterruptStatus::PENDING();
    assert!(status.contains(InterruptStatus::ENABLED()));
    assert!(status.contains(InterruptStatus::PENDING()));
    assert!(!status.contains(InterruptStatus::NOTIFIED()));
    assert_eq!(InterruptStatus::NOTIFIED().bits(), 0b100);
    assert_eq!(InterruptStatus::all().bits(), 0b111);
    assert_eq!(InterruptStatus::from_bits_truncate(0xfff9).bits(), 0b001);
}
