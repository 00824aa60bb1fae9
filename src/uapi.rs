//! Numeric vocabulary and record layouts of the detachment-latch device interface.
use vstd::prelude::*;

verus! {

// status/error categories
pub const SDTX_CATEGORY_STATUS: u16 = 0x0000;
pub const SDTX_CATEGORY_RUNTIME_ERROR: u16 = 0x1000;
pub const SDTX_CATEGORY_HARDWARE_ERROR: u16 = 0x2000;

pub const SDTX_CATEGORY_MASK: u16 = 0xf000;

// latch status values (status category)
pub const SDTX_LATCH_CLOSED: u16 = 0x0000;
pub const SDTX_LATCH_OPENED: u16 = 0x0001;

// base status values (status category)
pub const SDTX_BASE_DETACHED: u16 = 0x0000;
pub const SDTX_BASE_ATTACHED: u16 = 0x0001;

// runtime errors (non-critical)
pub const SDTX_DETACH_NOT_FEASIBLE: u16 = 0x1001;
pub const SDTX_DETACH_TIMEOUT: u16 = 0x1002;

// hardware errors (critical)
pub const SDTX_ERR_FAILED_TO_OPEN: u16 = 0x2001;
pub const SDTX_ERR_FAILED_TO_REMAIN_OPEN: u16 = 0x2002;
pub const SDTX_ERR_FAILED_TO_CLOSE: u16 = 0x2003;

// base types
pub const SDTX_DEVICE_TYPE_HID: u16 = 0x0100;
pub const SDTX_DEVICE_TYPE_SSH: u16 = 0x0200;

pub const SDTX_DEVICE_TYPE_MASK: u16 = 0x0f00;

// device mode
pub const SDTX_DEVICE_MODE_TABLET: u16 = 0x00;
pub const SDTX_DEVICE_MODE_LAPTOP: u16 = 0x01;
pub const SDTX_DEVICE_MODE_STUDIO: u16 = 0x02;

// event code
pub const SDTX_EVENT_REQUEST: u16 = 1;
pub const SDTX_EVENT_CANCEL: u16 = 2;
pub const SDTX_EVENT_BASE_CONNECTION: u16 = 3;
pub const SDTX_EVENT_LATCH_STATUS: u16 = 4;
pub const SDTX_EVENT_DEVICE_MODE: u16 = 5;

/// Size in bytes of an [`EventHeader`] on the wire.
pub const EVENT_HEADER_LEN: usize = 4;

/// The 16-bit value stored in two bytes, least significant byte first.
///
/// Multi-byte fields of the interface are read in little-endian order: the
/// kernel writes them in its native order, which is little-endian on every
/// platform that carries this device.
pub open spec fn le_u16(lo: u8, hi: u8) -> u16 {
    (lo as int + 256 * (hi as int)) as u16
}

/// Reads a little-endian `u16` from `bytes[at]` and `bytes[at + 1]`.
pub fn read_le_u16(bytes: &[u8], at: usize) -> (r: u16)
    requires
        at + 2 <= bytes@.len(),
    ensures
        r == le_u16(bytes@[at as int], bytes@[at + 1]),
{
    let lo = bytes[at] as u16;
    let hi = bytes[at + 1] as u16;
    lo + hi * 256
}

/// Fixed-size record that precedes each event payload.
#[derive(Debug, Clone, Copy)]
pub struct EventHeader {
    /// Number of payload bytes that follow the header.
    pub length: u16,
    /// Event code, selecting how the payload is read.
    pub code: u16,
}

/// The header held in the first four bytes of `bytes`: `length` at offset 0,
/// `code` at offset 2.
pub open spec fn header_of(bytes: Seq<u8>) -> EventHeader {
    EventHeader { length: le_u16(bytes[0], bytes[1]), code: le_u16(bytes[2], bytes[3]) }
}

impl EventHeader {
    /// Unpacks a header field by field from its four wire bytes.
    pub fn from_bytes(bytes: &[u8]) -> (r: EventHeader)
        requires
            bytes@.len() == EVENT_HEADER_LEN,
        ensures
            r == header_of(bytes@),
    {
        EventHeader { length: read_le_u16(bytes, 0), code: read_le_u16(bytes, 2) }
    }
}

/// Raw reply of the base-information query: base state and base word.
#[derive(Debug, Clone, Copy)]
pub struct BaseInfo {
    pub state: u16,
    pub base_id: u16,
}

} // verus!
