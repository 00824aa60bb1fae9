use std::io::Read;

use sdtx::event::{CancelReason, DeviceMode};
use sdtx::uapi::{EventHeader, EVENT_HEADER_LEN};
use sdtx::{Event, FrameReader, RuntimeError};

fn frame(code: u16, payload: &[u8]) -> Vec<u8> {
    let mut out = Vec::new();
    out.extend_from_slice(&(payload.len() as u16).to_le_bytes());
    out.extend_from_slice(&code.to_le_bytes());
    out.extend_from_slice(payload);
    out
}

/// Reads whole frames as a blocking reader does: a header, then its payload.
fn read_blocking(stream: &[u8]) -> Vec<Event> {
    let mut source = std::io::Cursor::new(stream);
    let mut events = Vec::new();
    loop {
        let mut hdr = [0u8; EVENT_HEADER_LEN];
        if source.read_exact(&mut hdr).is_err() {
            return events;
        }
        let hdr = EventHeader::from_bytes(&hdr);
        let mut payload = vec![0u8; hdr.length as usize];
        if source.read_exact(&mut payload).is_err() {
            return events;
        }
        events.push(Event::from_data(hdr.code, &payload));
    }
}

/// Feeds `stream` to a frame reader in pieces of at most `piece` bytes, never
/// more than it asks for.
fn read_cooperative(reader: &mut FrameReader, stream: &[u8], piece: usize) -> Vec<Event> {
    let mut events = Vec::new();
    let mut at = 0;
    while at < stream.len() {
        let n = reader.wanted().min(piece).min(stream.len() - at);
        if let Some(event) = reader.feed(&stream[at..at + n]) {
            events.push(event);
        }
        at += n;
    }
    events
}

fn sample_stream() -> Vec<u8> {
    let mut s = Vec::new();
    s.extend(frame(1, &[]));
    s.extend(frame(2, &[0x01, 0x10]));
    s.extend(frame(3, &[0x01, 0x00, 0x01, 0x01]));
    s.extend(frame(5, &[0x01, 0x00]));
    s.extend(frame(99, &[0xAA, 0xBB, 0xCC]));
    s.extend(frame(4, &[0x01]));
    s
}

#[test]
fn header_from_bytes() {
    let hdr = EventHeader::from_bytes(&[0x04, 0x00, 0x03, 0x00]);
    assert_eq!((hdr.length, hdr.code), (4, 3));
    let hdr = EventHeader::from_bytes(&[0x34, 0x12, 0xff, 0xee]);
    assert_eq!((hdr.length, hdr.code), (0x1234, 0xeeff));
}

#[test]
fn frame_round_trip() {
    let mut reader = FrameReader::new();
    let bytes = frame(2, &[0x02, 0x10]);
    assert_eq!(reader.wanted(), 4);
    assert!(reader.feed(&bytes[..4]).is_none());
    assert_eq!(reader.wanted(), 2);
    assert_eq!(
        reader.feed(&bytes[4..]),
        Some(Event::Cancel { reason: CancelReason::Runtime(RuntimeError::Timeout) })
    );
    assert_eq!(reader.buffered(), 0);
    assert_eq!(read_blocking(&bytes), vec![Event::from_data(2, &[0x02, 0x10])]);
}

#[test]
fn empty_payload_frame_completes_with_header() {
    let mut reader = FrameReader::new();
    assert_eq!(reader.feed(&frame(1, &[])), Some(Event::Request));
    assert_eq!(reader.wanted(), 4);
}

#[test]
fn bytewise_feeding_matches_blocking_reads() {
    let stream = sample_stream();
    let expected = read_blocking(&stream);
    assert_eq!(expected.len(), 6);
    let mut reader = FrameReader::new();
    assert_eq!(read_cooperative(&mut reader, &stream, 1), expected);
    assert_eq!(reader.buffered(), 0);
}

#[test]
fn any_piece_size_gives_the_same_events() {
    let stream = sample_stream();
    let expected = read_blocking(&stream);
    for piece in 1..=8 {
        let mut reader = FrameReader::new();
        assert_eq!(read_cooperative(&mut reader, &stream, piece), expected);
    }
}

#[test]
fn partial_frame_is_kept_across_calls() {
    let mut reader = FrameReader::new();
    let bytes = frame(5, &[0x01, 0x00]);
    assert!(reader.feed(&bytes[..3]).is_none());
    assert_eq!(reader.buffered(), 3);
    assert!(reader.feed(&[]).is_none());
    assert_eq!(reader.buffered(), 3);
    assert_eq!(reader.wanted(), 1);
    assert!(reader.feed(&bytes[3..5]).is_none());
    assert_eq!(reader.wanted(), 1);
    assert_eq!(reader.feed(&bytes[5..]), Some(Event::DeviceMode { mode: DeviceMode::Laptop }));
}

#[test]
fn trailing_partial_frame_yields_nothing() {
    let mut stream = frame(1, &[]);
    stream.extend_from_slice(&frame(2, &[0x01, 0x10])[..5]);
    let mut reader = FrameReader::new();
    assert_eq!(read_cooperative(&mut reader, &stream, 1), vec![Event::Request]);
    assert_eq!(reader.buffered(), 5);
    assert_eq!(read_blocking(&stream), vec![Event::Request]);
}

#[test]
fn largest_payload_frame() {
    let payload = vec![0x5a; 0xffff];
    let bytes = frame(0x77, &payload);
    let mut reader = FrameReader::new();
    assert!(reader.feed(&bytes[..4]).is_none());
    assert_eq!(reader.wanted(), 0xffff);
    assert_eq!(reader.feed(&bytes[4..]), Some(Event::Unknown { code: 0x77, data: payload }));
}
