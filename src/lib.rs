//! Observation and control of a hardware detachment latch through its
//! device event stream.
//!
//! The types at the crate root are the strict forms used by the control
//! queries: an unrecognized value is a [`ProtocolError`]. Their permissive
//! counterparts in [`event`] keep unrecognized values instead.
use vstd::prelude::*;
use vstd::std_specs::convert::{FromSpec, FromSpecImpl, TryFromSpecImpl};

pub mod uapi;

pub mod event;

pub mod lemmas;

pub use event::{Event, FrameReader, Lifecycle};

verus! {

#[verifier::external_type_specification]
#[verifier::external_body]
pub struct ExIoError(std::io::Error);

/// Failure of a device operation.
#[allow(inconsistent_fields)]
#[derive(Debug)]
pub enum Error {
    /// The device call itself failed.
    IoError { source: std::io::Error },
    /// The device answered with a value outside the known protocol.
    ProtocolError { source: ProtocolError },
}

impl From<std::io::Error> for Error {
    fn from(source: std::io::Error) -> Self {
        Error::IoError { source }
    }
}

impl FromSpecImpl<std::io::Error> for Error {
    open spec fn obeys_from_spec() -> bool {
        true
    }

    open spec fn from_spec(v: std::io::Error) -> Self {
        Error::IoError { source: v }
    }
}

impl From<ProtocolError> for Error {
    fn from(source: ProtocolError) -> Self {
        Error::ProtocolError { source }
    }
}

impl FromSpecImpl<ProtocolError> for Error {
    open spec fn obeys_from_spec() -> bool {
        true
    }

    open spec fn from_spec(v: ProtocolError) -> Self {
        Error::ProtocolError { source: v }
    }
}

/// A decoded field held a value that its domain does not know; the raw value
/// is kept.
#[derive(Debug, Clone, Copy, PartialEq, Eq, Structural)]
pub enum ProtocolError {
    InvalidBaseState(u16),
    InvalidDeviceMode(u16),
    InvalidLatchStatus(u16),
    InvalidCancelReason(u16),
}

/// Non-critical failure of a detachment.
#[derive(Debug, Clone, Copy, PartialEq, Eq, Structural)]
pub enum RuntimeError {
    NotFeasible,
    Timeout,
    Unknown(u8),
}

/// Critical failure of the latch hardware.
#[derive(Debug, Clone, Copy, PartialEq, Eq, Structural)]
pub enum HardwareError {
    FailedToOpen,
    FailedToRemainOpen,
    FailedToClose,
    Unknown(u8),
}

/// The category of a status or error value.
pub open spec fn category(value: u16) -> u16 {
    value & uapi::SDTX_CATEGORY_MASK
}

/// A value of the runtime-error category; unknown sub-codes keep the low byte.
pub open spec fn runtime_error_of(value: u16) -> RuntimeError {
    if value == uapi::SDTX_DETACH_NOT_FEASIBLE {
        RuntimeError::NotFeasible
    } else if value == uapi::SDTX_DETACH_TIMEOUT {
        RuntimeError::Timeout
    } else {
        RuntimeError::Unknown(value as u8)
    }
}

/// A value of the hardware-error category; unknown sub-codes keep the low byte.
pub open spec fn hardware_error_of(value: u16) -> HardwareError {
    if value == uapi::SDTX_ERR_FAILED_TO_OPEN {
        HardwareError::FailedToOpen
    } else if value == uapi::SDTX_ERR_FAILED_TO_REMAIN_OPEN {
        HardwareError::FailedToRemainOpen
    } else if value == uapi::SDTX_ERR_FAILED_TO_CLOSE {
        HardwareError::FailedToClose
    } else {
        HardwareError::Unknown(value as u8)
    }
}

pub(crate) fn decode_runtime_error(value: u16) -> (r: RuntimeError)
    ensures
        r == runtime_error_of(value),
{
    if value == uapi::SDTX_DETACH_NOT_FEASIBLE {
        RuntimeError::NotFeasible
    } else if value == uapi::SDTX_DETACH_TIMEOUT {
        RuntimeError::Timeout
    } else {
        RuntimeError::Unknown(value as u8)
    }
}

pub(crate) fn decode_hardware_error(value: u16) -> (r: HardwareError)
    ensures
        r == hardware_error_of(value),
{
    if value == uapi::SDTX_ERR_FAILED_TO_OPEN {
        HardwareError::FailedToOpen
    } else if value == uapi::SDTX_ERR_FAILED_TO_REMAIN_OPEN {
        HardwareError::FailedToRemainOpen
    } else if value == uapi::SDTX_ERR_FAILED_TO_CLOSE {
        HardwareError::FailedToClose
    } else {
        HardwareError::Unknown(value as u8)
    }
}

/// Operating mode of the device.
#[derive(Debug, Clone, Copy, PartialEq, Eq, Structural)]
pub enum DeviceMode {
    Tablet,
    Laptop,
    Studio,
}

pub open spec fn device_mode_of(value: u16) -> Result<DeviceMode, ProtocolError> {
    if value == uapi::SDTX_DEVICE_MODE_TABLET {
        Ok(DeviceMode::Tablet)
    } else if value == uapi::SDTX_DEVICE_MODE_LAPTOP {
        Ok(DeviceMode::Laptop)
    } else if value == uapi::SDTX_DEVICE_MODE_STUDIO {
        Ok(DeviceMode::Studio)
    } else {
        Err(ProtocolError::InvalidDeviceMode(value))
    }
}

impl TryFrom<u16> for DeviceMode {
    type Error = ProtocolError;

    fn try_from(value: u16) -> Result<Self, ProtocolError> {
        if value == uapi::SDTX_DEVICE_MODE_TABLET {
            Ok(DeviceMode::Tablet)
        } else if value == uapi::SDTX_DEVICE_MODE_LAPTOP {
            Ok(DeviceMode::Laptop)
        } else if value == uapi::SDTX_DEVICE_MODE_STUDIO {
            Ok(DeviceMode::Studio)
        } else {
            Err(ProtocolError::InvalidDeviceMode(value))
        }
    }
}

impl TryFromSpecImpl<u16> for DeviceMode {
    open spec fn obeys_try_from_spec() -> bool {
        true
    }

    open spec fn try_from_spec(v: u16) -> Result<Self, ProtocolError> {
        device_mode_of(v)
    }
}

/// State of the latch.
#[derive(Debug, Clone, Copy, PartialEq, Eq, Structural)]
pub enum LatchStatus {
    Closed,
    Opened,
    Error(HardwareError),
}

pub open spec fn latch_status_of(value: u16) -> Result<LatchStatus, ProtocolError> {
    if category(value) == uapi::SDTX_CATEGORY_HARDWARE_ERROR {
        Ok(LatchStatus::Error(hardware_error_of(value)))
    } else if category(value) == uapi::SDTX_CATEGORY_STATUS && value == uapi::SDTX_LATCH_CLOSED {
        Ok(LatchStatus::Closed)
    } else if category(value) == uapi::SDTX_CATEGORY_STATUS && value == uapi::SDTX_LATCH_OPENED {
        Ok(LatchStatus::Opened)
    } else {
        Err(ProtocolError::InvalidLatchStatus(value))
    }
}

impl TryFrom<u16> for LatchStatus {
    type Error = ProtocolError;

    fn try_from(value: u16) -> Result<Self, ProtocolError> {
        let cat = value & uapi::SDTX_CATEGORY_MASK;
        if cat == uapi::SDTX_CATEGORY_HARDWARE_ERROR {
            Ok(LatchStatus::Error(decode_hardware_error(value)))
        } else if cat == uapi::SDTX_CATEGORY_STATUS {
            if value == uapi::SDTX_LATCH_CLOSED {
                Ok(LatchStatus::Closed)
            } else if value == uapi::SDTX_LATCH_OPENED {
                Ok(LatchStatus::Opened)
            } else {
                Err(ProtocolError::InvalidLatchStatus(value))
            }
        } else {
            Err(ProtocolError::InvalidLatchStatus(value))
        }
    }
}

impl TryFromSpecImpl<u16> for LatchStatus {
    open spec fn obeys_try_from_spec() -> bool {
        true
    }

    open spec fn try_from_spec(v: u16) -> Result<Self, ProtocolError> {
        latch_status_of(v)
    }
}

/// Connection state of the base.
#[derive(Debug, Clone, Copy, PartialEq, Eq, Structural)]
pub enum BaseState {
    Detached,
    Attached,
    NotFeasible,
}

pub open spec fn base_state_of(value: u16) -> Result<BaseState, ProtocolError> {
    if value == uapi::SDTX_BASE_DETACHED {
        Ok(BaseState::Detached)
    } else if value == uapi::SDTX_BASE_ATTACHED {
        Ok(BaseState::Attached)
    } else if value == uapi::SDTX_DETACH_NOT_FEASIBLE {
        Ok(BaseState::NotFeasible)
    } else {
        Err(ProtocolError::InvalidBaseState(value))
    }
}

impl TryFrom<u16> for BaseState {
    type Error = ProtocolError;

    fn try_from(value: u16) -> Result<Self, ProtocolError> {
        if value == uapi::SDTX_BASE_DETACHED {
            Ok(BaseState::Detached)
        } else if value == uapi::SDTX_BASE_ATTACHED {
            Ok(BaseState::Attached)
        } else if value == uapi::SDTX_DETACH_NOT_FEASIBLE {
            Ok(BaseState::NotFeasible)
        } else {
            Err(ProtocolError::InvalidBaseState(value))
        }
    }
}

impl TryFromSpecImpl<u16> for BaseState {
    open spec fn obeys_try_from_spec() -> bool {
        true
    }

    open spec fn try_from_spec(v: u16) -> Result<Self, ProtocolError> {
        base_state_of(v)
    }
}

/// Kind of base that is attached, read from bits 8 to 11 of the base word.
#[derive(Debug, Clone, Copy, PartialEq, Eq, Structural)]
pub enum DeviceType {
    Hid,
    Ssh,
    Unknown(u8),
}

pub open spec fn device_type_of(value: u16) -> DeviceType {
    let t = value & uapi::SDTX_DEVICE_TYPE_MASK;
    if t == uapi::SDTX_DEVICE_TYPE_HID {
        DeviceType::Hid
    } else if t == uapi::SDTX_DEVICE_TYPE_SSH {
        DeviceType::Ssh
    } else {
        DeviceType::Unknown((t >> 8) as u8)
    }
}

/// Identifier of the base: the low byte of the base word.
pub open spec fn base_id_of(value: u16) -> u8 {
    (value & 0xff) as u8
}

impl From<u16> for DeviceType {
    fn from(value: u16) -> Self {
        let t = value & uapi::SDTX_DEVICE_TYPE_MASK;
        if t == uapi::SDTX_DEVICE_TYPE_HID {
            DeviceType::Hid
        } else if t == uapi::SDTX_DEVICE_TYPE_SSH {
            DeviceType::Ssh
        } else {
            DeviceType::Unknown((t >> 8) as u8)
        }
    }
}

impl FromSpecImpl<u16> for DeviceType {
    open spec fn obeys_from_spec() -> bool {
        true
    }

    open spec fn from_spec(v: u16) -> Self {
        device_type_of(v)
    }
}

/// Decoded reply of the base-information query.
#[derive(Debug, Clone, Copy, PartialEq, Eq, Structural)]
pub struct BaseInfo {
    pub state: BaseState,
    pub device_type: DeviceType,
    pub id: u8,
}

pub open spec fn base_info_of(raw: uapi::BaseInfo) -> Result<BaseInfo, ProtocolError> {
    match base_state_of(raw.state) {
        Ok(state) => Ok(
            BaseInfo { state, device_type: device_type_of(raw.base_id), id: base_id_of(raw.base_id) },
        ),
        Err(e) => Err(e),
    }
}

impl TryFrom<uapi::BaseInfo> for BaseInfo {
    type Error = ProtocolError;

    fn try_from(value: uapi::BaseInfo) -> Result<Self, ProtocolError> {
        let state = match BaseState::try_from(value.state) {
            Ok(state) => state,
            Err(e) => return Err(e),
        };
        let device_type = DeviceType::from(value.base_id);
        let id = (value.base_id & 0xff) as u8;

        Ok(BaseInfo { state, device_type, id })
    }
}

impl TryFromSpecImpl<uapi::BaseInfo> for BaseInfo {
    open spec fn obeys_try_from_spec() -> bool {
        true
    }

    open spec fn try_from_spec(v: uapi::BaseInfo) -> Result<Self, ProtocolError> {
        base_info_of(v)
    }
}

/// Reason for which a detachment was cancelled.
#[derive(Debug, Clone, Copy, PartialEq, Eq, Structural)]
pub enum CancelReason {
    Runtime(RuntimeError),
    Hardware(HardwareError),
}

/// Default location of the device file.
pub const DEFAULT_DEVICE_FILE_PATH: &'static str = "/dev/surface/dtx";

/// Handle on the detachment-latch device, wrapping its open file.
#[derive(Debug)]
pub struct Device<F> {
    file: F,
}

impl<F> Device<F> {
    /// The file that this handle wraps.
    pub closed spec fn handle(&self) -> F {
        self.file
    }

    fn new(file: F) -> (r: Self)
        ensures
            r.handle() == file,
    {
        Device { file }
    }

    pub fn file(&self) -> (r: &F)
        ensures
            *r == self.handle(),
    {
        &self.file
    }

    pub fn file_mut(&mut self) -> (r: &mut F)
        ensures
            *r == old(self).handle(),
            final(self).handle() == *final(r),
    {
        &mut self.file
    }
}

impl<F> From<F> for Device<F> {
    fn from(file: F) -> Self {
        Self::new(file)
    }
}

impl<F> FromSpecImpl<F> for Device<F> {
    open spec fn obeys_from_spec() -> bool {
        true
    }

    closed spec fn from_spec(v: F) -> Self {
        Device { file: v }
    }
}

/// A device built from a file wraps that very file.
pub proof fn lemma_device_from_file<F>(file: F)
    ensures
        <Device<F> as FromSpec<F>>::from_spec(file).handle() == file,
{
}

} // verus!
