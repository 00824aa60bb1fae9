use std::convert::TryFrom;

use sdtx::event::{
    BaseState as RawBaseState, CancelReason as RawCancelReason, DeviceMode as RawDeviceMode,
    LatchStatus as RawLatchStatus,
};
use sdtx::{
    uapi, BaseInfo, BaseState, CancelReason, Device, DeviceMode, DeviceType, Error,
    HardwareError, LatchStatus, ProtocolError, RuntimeError,
};

#[test]
fn strict_device_mode() {
    assert_eq!(DeviceMode::try_from(0u16), Ok(DeviceMode::Tablet));
    assert_eq!(DeviceMode::try_from(1u16), Ok(DeviceMode::Laptop));
    assert_eq!(DeviceMode::try_from(2u16), Ok(DeviceMode::Studio));
    assert_eq!(DeviceMode::try_from(3u16), Err(ProtocolError::InvalidDeviceMode(3)));
}

#[test]
fn strict_latch_status() {
    assert_eq!(LatchStatus::try_from(0u16), Ok(LatchStatus::Closed));
    assert_eq!(LatchStatus::try_from(1u16), Ok(LatchStatus::Opened));
    assert_eq!(
        LatchStatus::try_from(0x2001u16),
        Ok(LatchStatus::Error(HardwareError::FailedToOpen))
    );
    assert_eq!(
        LatchStatus::try_from(0x2010u16),
        Ok(LatchStatus::Error(HardwareError::Unknown(0x10)))
    );
    assert_eq!(LatchStatus::try_from(2u16), Err(ProtocolError::InvalidLatchStatus(2)));
    assert_eq!(LatchStatus::try_from(0x1001u16), Err(ProtocolError::InvalidLatchStatus(0x1001)));
}

#[test]
fn strict_base_state() {
    assert_eq!(BaseState::try_from(0u16), Ok(BaseState::Detached));
    assert_eq!(BaseState::try_from(1u16), Ok(BaseState::Attached));
    assert_eq!(BaseState::try_from(0x1001u16), Ok(BaseState::NotFeasible));
    assert_eq!(BaseState::try_from(0x2001u16), Err(ProtocolError::InvalidBaseState(0x2001)));
}

#[test]
fn base_info_from_query_reply() {
    let raw = uapi::BaseInfo { state: 1, base_id: 0x0207 };
    assert_eq!(
        BaseInfo::try_from(raw),
        Ok(BaseInfo { state: BaseState::Attached, device_type: DeviceType::Ssh, id: 7 })
    );
    let raw = uapi::BaseInfo { state: 9, base_id: 0x0207 };
    assert_eq!(BaseInfo::try_from(raw), Err(ProtocolError::InvalidBaseState(9)));
}

#[test]
fn narrowing_known_values() {
    assert_eq!(
        CancelReason::try_from(RawCancelReason::Runtime(RuntimeError::Timeout)),
        Ok(CancelReason::Runtime(RuntimeError::Timeout))
    );
    assert_eq!(
        CancelReason::try_from(RawCancelReason::Hardware(HardwareError::FailedToClose)),
        Ok(CancelReason::Hardware(HardwareError::FailedToClose))
    );
    assert_eq!(BaseState::try_from(RawBaseState::NotFeasible), Ok(BaseState::NotFeasible));
    assert_eq!(
        LatchStatus::try_from(RawLatchStatus::Error(HardwareError::Unknown(4))),
        Ok(LatchStatus::Error(HardwareError::Unknown(4)))
    );
    assert_eq!(DeviceMode::try_from(RawDeviceMode::Laptop), Ok(DeviceMode::Laptop));
}

#[test]
fn narrowing_unknown_values() {
    assert_eq!(
        CancelReason::try_from(RawCancelReason::Unknown(0x3001)),
        Err(ProtocolError::InvalidCancelReason(0x3001))
    );
    assert_eq!(
        BaseState::try_from(RawBaseState::Unknown(0x42)),
        Err(ProtocolError::InvalidBaseState(0x42))
    );
    assert_eq!(
        LatchStatus::try_from(RawLatchStatus::Unknown(0x0003)),
        Err(ProtocolError::InvalidLatchStatus(0x0003))
    );
    assert_eq!(
        DeviceMode::try_from(RawDeviceMode::Unknown(9)),
        Err(ProtocolError::InvalidDeviceMode(9))
    );
}

#[test]
fn narrowed_decoders_agree_with_strict_conversions() {
    for v in [0u16, 1, 2, 3, 0x1001, 0x1002, 0x2001, 0x20aa, 0x3000, 0xffff] {
        assert_eq!(LatchStatus::try_from(RawLatchStatus::from(v)), LatchStatus::try_from(v));
        assert_eq!(BaseState::try_from(RawBaseState::from(v)), BaseState::try_from(v));
        assert_eq!(DeviceMode::try_from(RawDeviceMode::from(v)), DeviceMode::try_from(v));
    }
}

#[test]
fn error_conversions() {
    match Error::from(ProtocolError::InvalidDeviceMode(5)) {
        Error::ProtocolError { source } => assert_eq!(source, ProtocolError::InvalidDeviceMode(5)),
        other => panic!("unexpected {:?}", other),
    }
    let io = std::io::Error::new(std::io::ErrorKind::Other, "ioctl failed");
    match Error::from(io) {
        Error::IoError { source } => assert_eq!(source.kind(), std::io::ErrorKind::Other),
        other => panic!("unexpected {:?}", other),
    }
}

#[test]
fn device_wraps_its_file() {
    let mut device = Device::from(vec![1u8, 2, 3]);
    assert_eq!(device.file(), &vec![1u8, 2, 3]);
    device.file_mut().push(4);
    assert_eq!(device.file(), &vec![1u8, 2, 3, 4]);
}
