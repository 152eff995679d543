use pw_kernel::status::Error;
use pw_kernel::syscall_defs::{InterruptStatus, Signals, SysCallId, SysCallReturnValue};

const ALL_ERRORS: [Error; 16] = [
    Error::Cancelled,
    Error::Unknown,
    Error::InvalidArgument,
    Error::DeadlineExceeded,
    Error::NotFound,
    Error::AlreadyExists,
    Error::PermissionDenied,
    Error::ResourceExhausted,
    Error::FailedPrecondition,
    Error::Aborted,
    Error::OutOfRange,
    Error::Unimplemented,
    Error::Internal,
    Error::Unavailable,
    Error::DataLoss,
    Error::Unauthenticated,
];

#[test]
fn error_codes_are_one_to_sixteen() {
    for (i, e) in ALL_ERRORS.iter().enumerate() {
        assert_eq!(e.code() as usize, i + 1);
        assert_eq!(Error::from_code(e.code()), *e);
    }
}

#[test]
fn every_error_survives_the_return_value() {
    for e in ALL_ERRORS {
        let v = SysCallReturnValue::from(Err(e));
        assert_eq!(v.0, -(e.code() as i64));
        assert_eq!(SysCallReturnValue::from(Err(e)).to_result_unit(), Err(e));
        assert_eq!(SysCallReturnValue::from(Err(e)).to_result_u32(), Err(e));
        assert_eq!(SysCallReturnValue::from(Err(e)).to_result_signals(), Err(e));
        assert_eq!(SysCallReturnValue::from(Err(e)).to_result_interrupt_status(), Err(e));
    }
}

#[test]
fn invalid_argument_is_minus_three() {
    assert_eq!(SysCallReturnValue::from(Err(Error::InvalidArgument)).0, -3);
    assert_eq!(SysCallReturnValue(-12).to_result_unit(), Err(Error::Unimplemented));
}

#[test]
fn success_values_read_back() {
    assert_eq!(SysCallReturnValue::from(Ok(0)).to_result_unit(), Ok(()));
    assert_eq!(SysCallReturnValue::from(Ok(42)).to_result_u32(), Ok(42));
    assert_eq!(SysCallReturnValue::from(Ok(0xffff_ffff)).to_result_u32(), Ok(0xffff_ffff));
    // The value is cut to its low 32 bits.
    assert_eq!(SysCallReturnValue::from(Ok(0x1_0000_0005)).to_result_u32(), Ok(5));
    assert_eq!(SysCallReturnValue(i64::MAX).to_result_u32(), Ok(0xffff_ffff));
}

#[test]
fn high_bit_success_becomes_negative() {
    assert_eq!(SysCallReturnValue::from(Ok(u64::MAX)).0, -1);
    assert_eq!(SysCallReturnValue::from(Ok(1u64 << 63)).0, i64::MIN);
    assert_eq!(SysCallReturnValue::from(Ok(u64::MAX)).to_result_unit(), Err(Error::Cancelled));
}

#[test]
fn signals_survive_the_return_value() {
    let s = Signals::INTERRUPT_A() | Signals::READABLE();
    assert_eq!(SysCallReturnValue::from(Ok(s.bits() as u64)).to_result_signals(), Ok(s));
    // Every bit is kept, named or not.
    let r = SysCallReturnValue(0x7fff_ffff).to_result_signals().unwrap();
    assert_eq!(r.bits(), 0x7fff_ffff);
}

#[test]
fn interrupt_status_drops_unnamed_bits() {
    let st = InterruptStatus::ENABLED() | InterruptStatus::NOTIFIED();
    assert_eq!(SysCallReturnValue::from(Ok(st.bits() as u64)).to_result_interrupt_status(), Ok(st));
    let r = SysCallReturnValue(0xf0f).to_result_interrupt_status().unwrap();
    assert_eq!(r.bits(), 0b111);
    let r = SysCallReturnValue(0x8).to_result_interrupt_status().unwrap();
    assert!(r.is_empty());
}

#[test]
fn syscall_numbers() {
    assert_eq!(SysCallId::ObjectWait.number(), 0x0000);
    assert_eq!(SysCallId::InterruptAck.number(), 0x0004);
    assert_eq!(SysCallId::InterruptControl.number(), 0x0005);
    assert_eq!(SysCallId::InterruptStatus.number(), 0x0006);
    assert_eq!(SysCallId::DebugPutc.number(), 0xf000);
    assert_eq!(SysCallId::DebugTriggerInterrupt.number(), 0xf004);
    for id in [
        SysCallId::ObjectWait,
        SysCallId::ChannelTransact,
        SysCallId::ChannelRead,
        SysCallId::ChannelRespond,
        SysCallId::InterruptAck,
        SysCallId::InterruptControl,
        SysCallId::InterruptStatus,
        SysCallId::DebugPutc,
        SysCallId::DebugShutdown,
        SysCallId::DebugLog,
        SysCallId::DebugNop,
        SysCallId::DebugTriggerInterrupt,
    ] {
        assert_eq!(SysCallId::from_number(id.number()), Some(id));
    }
    assert_eq!(SysCallId::from_number(0x0007), None);
    assert_eq!(SysCallId::from_number(0xf005), None);
    assert_eq!(SysCallId::from_number(0xffff), None);
}
