//! Decoding of the device event stream: permissive field decoders, the event
//! assembler, the resumable frame reader and the event-reporting lifecycle.
use vstd::prelude::*;
use vstd::std_specs::convert::{FromSpecImpl, TryFromSpecImpl};

use crate::uapi;
use crate::uapi::{header_of, le_u16, EventHeader, EVENT_HEADER_LEN};
use crate::{
    base_id_of, category, decode_hardware_error, decode_runtime_error, device_type_of,
    hardware_error_of, runtime_error_of, DeviceType, HardwareError, ProtocolError, RuntimeError,
};

verus! {

/// Reason for which a detachment was cancelled; `Unknown` keeps a value of
/// no known category.
#[derive(Debug, Clone, Copy, PartialEq, Eq, Structural)]
pub enum CancelReason {
    Runtime(RuntimeError),
    Hardware(HardwareError),
    Unknown(u16),
}

pub open spec fn cancel_reason_of(value: u16) -> CancelReason {
    if category(value) == uapi::SDTX_CATEGORY_RUNTIME_ERROR {
        CancelReason::Runtime(runtime_error_of(value))
    } else if category(value) == uapi::SDTX_CATEGORY_HARDWARE_ERROR {
        CancelReason::Hardware(hardware_error_of(value))
    } else {
        CancelReason::Unknown(value)
    }
}

impl From<u16> for CancelReason {
    fn from(value: u16) -> Self {
        let cat = value & uapi::SDTX_CATEGORY_MASK;
        if cat == uapi::SDTX_CATEGORY_RUNTIME_ERROR {
            CancelReason::Runtime(decode_runtime_error(value))
        } else if cat == uapi::SDTX_CATEGORY_HARDWARE_ERROR {
            CancelReason::Hardware(decode_hardware_error(value))
        } else {
            CancelReason::Unknown(value)
        }
    }
}

impl FromSpecImpl<u16> for CancelReason {
    open spec fn obeys_from_spec() -> bool {
        true
    }

    open spec fn from_spec(v: u16) -> Self {
        cancel_reason_of(v)
    }
}

pub open spec fn narrow_cancel_reason(value: CancelReason) -> Result<
    crate::CancelReason,
    ProtocolError,
> {
    match value {
        CancelReason::Runtime(err) => Ok(crate::CancelReason::Runtime(err)),
        CancelReason::Hardware(err) => Ok(crate::CancelReason::Hardware(err)),
        CancelReason::Unknown(v) => Err(ProtocolError::InvalidCancelReason(v)),
    }
}

impl TryFrom<CancelReason> for crate::CancelReason {
    type Error = ProtocolError;

    fn try_from(value: CancelReason) -> Result<Self, ProtocolError> {
        match value {
            CancelReason::Runtime(err) => Ok(Self::Runtime(err)),
            CancelReason::Hardware(err) => Ok(Self::Hardware(err)),
            CancelReason::Unknown(v) => Err(ProtocolError::InvalidCancelReason(v)),
        }
    }
}

impl TryFromSpecImpl<CancelReason> for crate::CancelReason {
    open spec fn obeys_try_from_spec() -> bool {
        true
    }

    open spec fn try_from_spec(v: CancelReason) -> Result<Self, ProtocolError> {
        narrow_cancel_reason(v)
    }
}

/// Connection state of the base; `Unknown` keeps an unrecognized value.
#[derive(Debug, Clone, Copy, PartialEq, Eq, Structural)]
pub enum BaseState {
    Detached,
    Attached,
    NotFeasible,
    Unknown(u16),
}

pub open spec fn base_state_of(value: u16) -> BaseState {
    if value == uapi::SDTX_BASE_DETACHED {
        BaseState::Detached
    } else if value == uapi::SDTX_BASE_ATTACHED {
        BaseState::Attached
    } else if value == uapi::SDTX_DETACH_NOT_FEASIBLE {
        BaseState::NotFeasible
    } else {
        BaseState::Unknown(value)
    }
}

impl From<u16> for BaseState {
    fn from(value: u16) -> Self {
        if value == uapi::SDTX_BASE_DETACHED {
            BaseState::Detached
        } else if value == uapi::SDTX_BASE_ATTACHED {
            BaseState::Attached
        } else if value == uapi::SDTX_DETACH_NOT_FEASIBLE {
            BaseState::NotFeasible
        } else {
            BaseState::Unknown(value)
        }
    }
}

impl FromSpecImpl<u16> for BaseState {
    open spec fn obeys_from_spec() -> bool {
        true
    }

    open spec fn from_spec(v: u16) -> Self {
        base_state_of(v)
    }
}

pub open spec fn narrow_base_state(value: BaseState) -> Result<crate::BaseState, ProtocolError> {
    match value {
        BaseState::Detached => Ok(crate::BaseState::Detached),
        BaseState::Attached => Ok(crate::BaseState::Attached),
        BaseState::NotFeasible => Ok(crate::BaseState::NotFeasible),
        BaseState::Unknown(v) => Err(ProtocolError::InvalidBaseState(v)),
    }
}

impl TryFrom<BaseState> for crate::BaseState {
    type Error = ProtocolError;

    fn try_from(value: BaseState) -> Result<Self, ProtocolError> {
        match value {
            BaseState::Detached => Ok(Self::Detached),
            BaseState::Attached => Ok(Self::Attached),
            BaseState::NotFeasible => Ok(Self::NotFeasible),
            BaseState::Unknown(v) => Err(ProtocolError::InvalidBaseState(v)),
        }
    }
}

impl TryFromSpecImpl<BaseState> for crate::BaseState {
    open spec fn obeys_try_from_spec() -> bool {
        true
    }

    open spec fn try_from_spec(v: BaseState) -> Result<Self, ProtocolError> {
        narrow_base_state(v)
    }
}

/// State of the latch; `Unknown` keeps an unrecognized value.
#[derive(Debug, Clone, Copy, PartialEq, Eq, Structural)]
pub enum LatchStatus {
    Closed,
    Opened,
    Error(HardwareError),
    Unknown(u16),
}

pub open spec fn latch_status_of(value: u16) -> LatchStatus {
    if category(value) == uapi::SDTX_CATEGORY_HARDWARE_ERROR {
        LatchStatus::Error(hardware_error_of(value))
    } else if category(value) == uapi::SDTX_CATEGORY_STATUS && value == uapi::SDTX_LATCH_CLOSED {
        LatchStatus::Closed
    } else if category(value) == uapi::SDTX_CATEGORY_STATUS && value == uapi::SDTX_LATCH_OPENED {
        LatchStatus::Opened
    } else {
        LatchStatus::Unknown(value)
    }
}

impl From<u16> for LatchStatus {
    fn from(value: u16) -> Self {
        let cat = value & uapi::SDTX_CATEGORY_MASK;
        if cat == uapi::SDTX_CATEGORY_HARDWARE_ERROR {
            LatchStatus::Error(decode_hardware_error(value))
        } else if cat == uapi::SDTX_CATEGORY_STATUS {
            if value == uapi::SDTX_LATCH_CLOSED {
                LatchStatus::Closed
            } else if value == uapi::SDTX_LATCH_OPENED {
                LatchStatus::Opened
            } else {
                LatchStatus::Unknown(value)
            }
        } else {
            LatchStatus::Unknown(value)
        }
    }
}

impl FromSpecImpl<u16> for LatchStatus {
    open spec fn obeys_from_spec() -> bool {
        true
    }

    open spec fn from_spec(v: u16) -> Self {
        latch_status_of(v)
    }
}

pub open spec fn narrow_latch_status(value: LatchStatus) -> Result<
    crate::LatchStatus,
    ProtocolError,
> {
    match value {
        LatchStatus::Closed => Ok(crate::LatchStatus::Closed),
        LatchStatus::Opened => Ok(crate::LatchStatus::Opened),
        LatchStatus::Error(err) => Ok(crate::LatchStatus::Error(err)),
        LatchStatus::Unknown(v) => Err(ProtocolError::InvalidLatchStatus(v)),
    }
}

impl TryFrom<LatchStatus> for crate::LatchStatus {
    type Error = ProtocolError;

    fn try_from(value: LatchStatus) -> Result<Self, ProtocolError> {
        match value {
            LatchStatus::Closed => Ok(Self::Closed),
            LatchStatus::Opened => Ok(Self::Opened),
            LatchStatus::Error(err) => Ok(Self::Error(err)),
            LatchStatus::Unknown(v) => Err(ProtocolError::InvalidLatchStatus(v)),
        }
    }
}

impl TryFromSpecImpl<LatchStatus> for crate::LatchStatus {
    open spec fn obeys_try_from_spec() -> bool {
        true
    }

    open spec fn try_from_spec(v: LatchStatus) -> Result<Self, ProtocolError> {
        narrow_latch_status(v)
    }
}

/// Operating mode of the device; `Unknown` keeps an unrecognized value.
#[derive(Debug, Clone, Copy, PartialEq, Eq, Structural)]
pub enum DeviceMode {
    Tablet,
    Laptop,
    Studio,
    Unknown(u16),
}

pub open spec fn device_mode_of(value: u16) -> DeviceMode {
    if value == uapi::SDTX_DEVICE_MODE_TABLET {
        DeviceMode::Tablet
    } else if value == uapi::SDTX_DEVICE_MODE_LAPTOP {
        DeviceMode::Laptop
    } else if value == uapi::SDTX_DEVICE_MODE_STUDIO {
        DeviceMode::Studio
    } else {
        DeviceMode::Unknown(value)
    }
}

impl From<u16> for DeviceMode {
    fn from(value: u16) -> Self {
        if value == uapi::SDTX_DEVICE_MODE_TABLET {
            DeviceMode::Tablet
        } else if value == uapi::SDTX_DEVICE_MODE_LAPTOP {
            DeviceMode::Laptop
        } else if value == uapi::SDTX_DEVICE_MODE_STUDIO {
            DeviceMode::Studio
        } else {
            DeviceMode::Unknown(value)
        }
    }
}

impl FromSpecImpl<u16> for DeviceMode {
    open spec fn obeys_from_spec() -> bool {
        true
    }

    open spec fn from_spec(v: u16) -> Self {
        device_mode_of(v)
    }
}

pub open spec fn narrow_device_mode(value: DeviceMode) -> Result<crate::DeviceMode, ProtocolError> {
    match value {
        DeviceMode::Tablet => Ok(crate::DeviceMode::Tablet),
        DeviceMode::Laptop => Ok(crate::DeviceMode::Laptop),
        DeviceMode::Studio => Ok(crate::DeviceMode::Studio),
        DeviceMode::Unknown(v) => Err(ProtocolError::InvalidDeviceMode(v)),
    }
}

impl TryFrom<DeviceMode> for crate::DeviceMode {
    type Error = ProtocolError;

    fn try_from(value: DeviceMode) -> Result<Self, ProtocolError> {
        match value {
            DeviceMode::Tablet => Ok(Self::Tablet),
            DeviceMode::Laptop => Ok(Self::Laptop),
            DeviceMode::Studio => Ok(Self::Studio),
            DeviceMode::Unknown(v) => Err(ProtocolError::InvalidDeviceMode(v)),
        }
    }
}

impl TryFromSpecImpl<DeviceMode> for crate::DeviceMode {
    open spec fn obeys_try_from_spec() -> bool {
        true
    }

    open spec fn try_from_spec(v: DeviceMode) -> Result<Self, ProtocolError> {
        narrow_device_mode(v)
    }
}

/// One decoded notification of the device.
///
/// An event whose code is not known, or whose payload does not have the
/// length that its code calls for, is `Unknown` and keeps the code and the
/// payload bytes as they came.
#[derive(Debug, Clone, PartialEq, Eq)]
pub enum Event {
    Request,
    Cancel { reason: CancelReason },
    BaseConnection { state: BaseState, device_type: DeviceType, id: u8 },
    LatchStatus { status: LatchStatus },
    DeviceMode { mode: DeviceMode },
    Unknown { code: u16, data: Vec<u8> },
}

/// Mathematical form of an [`Event`]: the payload of an unknown event as a
/// sequence of bytes.
pub enum EventView {
    Request,
    Cancel { reason: CancelReason },
    BaseConnection { state: BaseState, device_type: DeviceType, id: u8 },
    LatchStatus { status: LatchStatus },
    DeviceMode { mode: DeviceMode },
    Unknown { code: u16, data: Seq<u8> },
}

impl View for Event {
    type V = EventView;

    open spec fn view(&self) -> EventView {
        match self {
            Event::Request => EventView::Request,
            Event::Cancel { reason } => EventView::Cancel { reason: *reason },
            Event::BaseConnection { state, device_type, id } => EventView::BaseConnection {
                state: *state,
                device_type: *device_type,
                id: *id,
            },
            Event::LatchStatus { status } => EventView::LatchStatus { status: *status },
            Event::DeviceMode { mode } => EventView::DeviceMode { mode: *mode },
            Event::Unknown { code, data } => EventView::Unknown { code: *code, data: data@ },
        }
    }
}

/// Payload length that an event code calls for, for the known codes.
pub open spec fn expected_len(code: u16) -> Option<nat> {
    if code == uapi::SDTX_EVENT_REQUEST {
        Some(0)
    } else if code == uapi::SDTX_EVENT_CANCEL {
        Some(2)
    } else if code == uapi::SDTX_EVENT_BASE_CONNECTION {
        Some(4)
    } else if code == uapi::SDTX_EVENT_LATCH_STATUS {
        Some(2)
    } else if code == uapi::SDTX_EVENT_DEVICE_MODE {
        Some(2)
    } else {
        None
    }
}

/// The event that code `code` with payload `data` stands for.
pub open spec fn event_of(code: u16, data: Seq<u8>) -> EventView {
    if expected_len(code) != Some(data.len()) {
        EventView::Unknown { code, data }
    } else if code == uapi::SDTX_EVENT_REQUEST {
        EventView::Request
    } else if code == uapi::SDTX_EVENT_CANCEL {
        EventView::Cancel { reason: cancel_reason_of(le_u16(data[0], data[1])) }
    } else if code == uapi::SDTX_EVENT_BASE_CONNECTION {
        let base = le_u16(data[2], data[3]);
        EventView::BaseConnection {
            state: base_state_of(le_u16(data[0], data[1])),
            device_type: device_type_of(base),
            id: base_id_of(base),
        }
    } else if code == uapi::SDTX_EVENT_LATCH_STATUS {
        EventView::LatchStatus { status: latch_status_of(le_u16(data[0], data[1])) }
    } else {
        EventView::DeviceMode { mode: device_mode_of(le_u16(data[0], data[1])) }
    }
}

impl Event {
    /// Assembles the event for code `code` and payload `data`. Never fails:
    /// an unknown code or a payload of the wrong length gives `Unknown`.
    pub fn from_data(code: u16, data: &[u8]) -> (r: Self)
        ensures
            r@ == event_of(code, data@),
    {
        if code == uapi::SDTX_EVENT_REQUEST {
            if data.len() != 0 {
                return Event::Unknown { code, data: vstd::slice::slice_to_vec(data) };
            }
            Event::Request
        } else if code == uapi::SDTX_EVENT_CANCEL {
            if data.len() != 2 {
                return Event::Unknown { code, data: vstd::slice::slice_to_vec(data) };
            }
            let reason = CancelReason::from(uapi::read_le_u16(data, 0));

            Event::Cancel { reason }
        } else if code == uapi::SDTX_EVENT_BASE_CONNECTION {
            if data.len() != 4 {
                return Event::Unknown { code, data: vstd::slice::slice_to_vec(data) };
            }
            let state = BaseState::from(uapi::read_le_u16(data, 0));
            let base = uapi::read_le_u16(data, 2);

            let device_type = DeviceType::from(base);
            let id = (base & 0xff) as u8;

            Event::BaseConnection { state, device_type, id }
        } else if code == uapi::SDTX_EVENT_LATCH_STATUS {
            if data.len() != 2 {
                return Event::Unknown { code, data: vstd::slice::slice_to_vec(data) };
            }
            let status = LatchStatus::from(uapi::read_le_u16(data, 0));

            Event::LatchStatus { status }
        } else if code == uapi::SDTX_EVENT_DEVICE_MODE {
            if data.len() != 2 {
                return Event::Unknown { code, data: vstd::slice::slice_to_vec(data) };
            }
            let mode = DeviceMode::from(uapi::read_le_u16(data, 0));

            Event::DeviceMode { mode }
        } else {
            Event::Unknown { code, data: vstd::slice::slice_to_vec(data) }
        }
    }
}

/// Total size of the frame whose header starts `bytes`: the header and the
/// payload length that it names.
pub open spec fn frame_len(bytes: Seq<u8>) -> nat {
    EVENT_HEADER_LEN as nat + header_of(bytes).length as nat
}

/// `bytes` is exactly one whole frame.
pub open spec fn is_complete(bytes: Seq<u8>) -> bool {
    bytes.len() >= EVENT_HEADER_LEN && bytes.len() == frame_len(bytes)
}

/// The event of the frame that starts `bytes`.
pub open spec fn frame_event(bytes: Seq<u8>) -> EventView {
    event_of(
        header_of(bytes).code,
        bytes.subrange(EVENT_HEADER_LEN as int, frame_len(bytes) as int),
    )
}

/// `pending` is a strict prefix of a frame: either the header is not yet
/// whole, or the payload that it names is not.
pub open spec fn is_partial(pending: Seq<u8>) -> bool {
    pending.len() < EVENT_HEADER_LEN || pending.len() < frame_len(pending)
}

/// Number of bytes that complete the current stage of a partial frame: the
/// rest of the header while it is incomplete, then the rest of the payload.
pub open spec fn wanted_of(pending: Seq<u8>) -> nat {
    if pending.len() < EVENT_HEADER_LEN {
        (EVENT_HEADER_LEN - pending.len()) as nat
    } else {
        (frame_len(pending) - pending.len()) as nat
    }
}

/// One step of the frame reader: `data` is appended to the pending bytes;
/// when they form a whole frame, its event is produced and nothing stays
/// pending.
pub open spec fn step(pending: Seq<u8>, data: Seq<u8>) -> (Seq<u8>, Option<EventView>) {
    let bytes = pending + data;
    if is_complete(bytes) {
        (Seq::empty(), Some(frame_event(bytes)))
    } else {
        (bytes, None)
    }
}

/// Events that a blocking reader takes from `stream`: a header, then the
/// payload that it names, decoded, for as long as whole frames remain.
pub open spec fn frames(stream: Seq<u8>) -> Seq<EventView>
    decreases stream.len(),
{
    if stream.len() >= EVENT_HEADER_LEN && stream.len() >= frame_len(stream) {
        seq![frame_event(stream)] + frames(
            stream.subrange(frame_len(stream) as int, stream.len() as int),
        )
    } else {
        Seq::empty()
    }
}

/// Bytes of `stream` after its last whole frame.
pub open spec fn leftover(stream: Seq<u8>) -> Seq<u8>
    decreases stream.len(),
{
    if stream.len() >= EVENT_HEADER_LEN && stream.len() >= frame_len(stream) {
        leftover(stream.subrange(frame_len(stream) as int, stream.len() as int))
    } else {
        stream
    }
}

/// Resumable reader of frames from a source that may hand out bytes a few
/// at a time.
///
/// It keeps the bytes of the current frame across calls. The caller asks
/// [`FrameReader::wanted`] how many bytes to read, reads at most that many,
/// and hands them to [`FrameReader::feed`], which yields the event once the
/// frame is whole. A read that delivers nothing loses nothing.
#[derive(Debug)]
pub struct FrameReader {
    buffer: Vec<u8>,
}

impl View for FrameReader {
    type V = Seq<u8>;

    /// The bytes of the current, incomplete frame.
    closed spec fn view(&self) -> Seq<u8> {
        self.buffer@
    }
}

impl FrameReader {
    pub fn new() -> (r: Self)
        ensures
            r@ == Seq::<u8>::empty(),
    {
        FrameReader { buffer: Vec::with_capacity(128) }
    }

    /// Number of bytes of the current frame received so far.
    pub fn buffered(&self) -> (r: usize)
        ensures
            r == self@.len(),
    {
        self.buffer.len()
    }

    /// Number of bytes to read next; never zero.
    pub fn wanted(&self) -> (r: usize)
        requires
            is_partial(self@),
        ensures
            r == wanted_of(self@),
            r > 0,
    {
        let len = self.buffer.len();
        if len < EVENT_HEADER_LEN {
            EVENT_HEADER_LEN - len
        } else {
            let hdr = EventHeader::from_bytes(
                vstd::slice::slice_subrange(self.buffer.as_slice(), 0, EVENT_HEADER_LEN),
            );
            EVENT_HEADER_LEN + hdr.length as usize - len
        }
    }

    /// Takes bytes read from the source; yields the event when they complete
    /// the current frame.
    pub fn feed(&mut self, data: &[u8]) -> (r: Option<Event>)
        requires
            is_partial(old(self)@),
            data@.len() <= wanted_of(old(self)@),
        ensures
            is_partial(final(self)@),
            final(self)@ == step(old(self)@, data@).0,
            match r {
                Some(e) => step(old(self)@, data@).1 == Some(e@),
                None => step(old(self)@, data@).1 is None,
            },
    {
        let ghost pending = self.buffer@;
        let mut i: usize = 0;
        while i < data.len()
            invariant
                i <= data@.len(),
                self.buffer@ == pending + data@.subrange(0, i as int),
            decreases data@.len() - i,
        {
            self.buffer.push(data[i]);
            i = i + 1;
            assert(pending + data@.subrange(0, i as int) =~= self.buffer@);
        }
        assert(data@.subrange(0, data@.len() as int) =~= data@);

        let len = self.buffer.len();
        if len < EVENT_HEADER_LEN {
            return None;
        }
        let hdr = EventHeader::from_bytes(
            vstd::slice::slice_subrange(self.buffer.as_slice(), 0, EVENT_HEADER_LEN),
        );
        let event_len = EVENT_HEADER_LEN + hdr.length as usize;
        if len < event_len {
            return None;
        }
        let payload = vstd::slice::slice_subrange(
            self.buffer.as_slice(),
            EVENT_HEADER_LEN,
            event_len,
        );
        let event = Event::from_data(hdr.code, payload);
        self.buffer.clear();
        Some(event)
    }
}

/// Device control call that the event-reporting lifecycle asks for.
#[derive(Debug, Clone, Copy, PartialEq, Eq, Structural)]
pub enum ControlCall {
    EnableEvents,
    DisableEvents,
}

/// Where a stream stands with respect to event reporting.
#[derive(Debug, Clone, Copy, PartialEq, Eq, Structural)]
pub enum Phase {
    /// Enabling was asked for; its outcome is not known yet.
    Enabling,
    /// Reporting is on: events may be read.
    Enabled,
    /// Enabling failed: reporting is off and nothing is to be undone.
    Failed,
    /// The stream is torn down.
    Released,
}

/// Mathematical form of a [`Lifecycle`]: its phase and the control calls it
/// has asked for, in order.
pub struct LifecycleView {
    pub phase: Phase,
    pub issued: Seq<ControlCall>,
}

/// Scoped enabling of event reporting: enabled once when a stream is built,
/// disabled once when it is torn down, and only if enabling succeeded.
///
/// The caller performs each [`ControlCall`] that the lifecycle hands out and
/// reports the outcome of enabling; a failure of disabling is not reported,
/// as teardown must not fail.
pub struct Lifecycle {
    phase: Phase,
    issued: Ghost<Seq<ControlCall>>,
}

pub open spec fn started() -> LifecycleView {
    LifecycleView { phase: Phase::Enabling, issued: seq![ControlCall::EnableEvents] }
}

pub open spec fn after_enabling(v: LifecycleView, ok: bool) -> LifecycleView {
    LifecycleView { phase: if ok { Phase::Enabled } else { Phase::Failed }, issued: v.issued }
}

/// The call that teardown asks for: disabling, exactly when reporting is on.
pub open spec fn release_call(v: LifecycleView) -> Option<ControlCall> {
    if v.phase == Phase::Enabled {
        Some(ControlCall::DisableEvents)
    } else {
        None
    }
}

pub open spec fn after_release(v: LifecycleView) -> LifecycleView {
    LifecycleView {
        phase: Phase::Released,
        issued: match release_call(v) {
            Some(c) => v.issued.push(c),
            None => v.issued,
        },
    }
}

impl View for Lifecycle {
    type V = LifecycleView;

    closed spec fn view(&self) -> LifecycleView {
        LifecycleView { phase: self.phase, issued: self.issued@ }
    }
}

impl Lifecycle {
    /// Begins a stream: returns the lifecycle and the call that enables
    /// event reporting, which must be made before any read.
    pub fn start() -> (r: (Lifecycle, ControlCall))
        ensures
            r.0@ == started(),
            r.1 == ControlCall::EnableEvents,
    {
        let ghost calls = seq![ControlCall::EnableEvents];
        let issued: Ghost<Seq<ControlCall>> = Ghost(calls);
        (Lifecycle { phase: Phase::Enabling, issued }, ControlCall::EnableEvents)
    }

    /// Records whether the enabling call succeeded.
    pub fn enabled(&mut self, ok: bool)
        requires
            old(self)@.phase == Phase::Enabling,
        ensures
            final(self)@ == after_enabling(old(self)@, ok),
    {
        self.phase = if ok { Phase::Enabled } else { Phase::Failed };
    }

    pub fn phase(&self) -> (r: Phase)
        ensures
            r == self@.phase,
    {
        self.phase
    }

    /// Events may be read only while reporting is on.
    pub fn can_read(&self) -> (r: bool)
        ensures
            r == (self@.phase == Phase::Enabled),
    {
        self.phase == Phase::Enabled
    }

    /// Tears the stream down: returns the disabling call when reporting is
    /// on, and nothing otherwise. A second teardown asks for nothing.
    pub fn release(&mut self) -> (r: Option<ControlCall>)
        ensures
            r == release_call(old(self)@),
            final(self)@ == after_release(old(self)@),
    {
        let r = if self.phase == Phase::Enabled { Some(ControlCall::DisableEvents) } else { None };
        proof {
            if let Some(c) = r {
                self.issued@ = self.issued@.push(c);
            }
        }
        self.phase = Phase::Released;
        r
    }
}

} // verus!
