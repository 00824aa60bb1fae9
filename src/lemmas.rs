//! Facts about the framing engine that relate several of its operations.
use vstd::prelude::*;

use crate::event::{
    after_enabling, after_release, base_state_of, cancel_reason_of, device_mode_of, event_of,
    expected_len, frame_event, frame_len, frames, is_complete, is_partial, latch_status_of,
    leftover, narrow_base_state, narrow_cancel_reason, narrow_device_mode, narrow_latch_status,
    release_call, started, step, wanted_of, BaseState, CancelReason, ControlCall, DeviceMode, EventView,
    LatchStatus, Phase,
};
use crate::uapi;
use crate::uapi::{header_of, le_u16, EventHeader, EVENT_HEADER_LEN};
use crate::{base_id_of, category, device_type_of, HardwareError, ProtocolError, RuntimeError};

verus! {

/// What a frame reader that holds `pending` yields when `stream` is handed
/// to it one byte per call: the bytes left pending and the events, in order.
pub open spec fn feed_bytewise(pending: Seq<u8>, stream: Seq<u8>) -> (Seq<u8>, Seq<EventView>)
    decreases stream.len(),
{
    if stream.len() == 0 {
        (pending, Seq::empty())
    } else {
        let next = step(pending, stream.take(1));
        let rest = feed_bytewise(next.0, stream.skip(1));
        match next.1 {
            Some(e) => (rest.0, seq![e] + rest.1),
            None => rest,
        }
    }
}

/// The two little-endian bytes of `x`.
pub open spec fn le_bytes(x: u16) -> Seq<u8> {
    seq![(x % 256) as u8, (x / 256) as u8]
}

/// The wire form of an event: a header naming the payload's length and the
/// code, then the payload.
pub open spec fn encode_frame(code: u16, payload: Seq<u8>) -> Seq<u8> {
    le_bytes(payload.len() as u16) + le_bytes(code) + payload
}

/// A stream that starts with the whole frame `frame` yields that frame's
/// event first, then the events of what follows it.
proof fn lemma_frames_after_frame(frame: Seq<u8>, rest: Seq<u8>)
    requires
        is_complete(frame),
    ensures
        frames(frame + rest) == seq![frame_event(frame)] + frames(rest),
        leftover(frame + rest) == leftover(rest),
{
    let s = frame + rest;
    assert(header_of(s) == header_of(frame));
    assert(s.subrange(frame_len(s) as int, s.len() as int) =~= rest);
    assert(s.subrange(EVENT_HEADER_LEN as int, frame_len(s) as int) =~= frame.subrange(
        EVENT_HEADER_LEN as int,
        frame_len(frame) as int,
    ));
}

/// Feeding the reader one byte per call yields exactly the events that a
/// blocking reader takes from the same bytes, in the same order, and leaves
/// pending exactly the bytes after the last whole frame.
pub proof fn lemma_bytewise_feeding_matches_blocking(pending: Seq<u8>, stream: Seq<u8>)
    requires
        is_partial(pending),
    ensures
        feed_bytewise(pending, stream) == (leftover(pending + stream), frames(pending + stream)),
    decreases stream.len(),
{
    if stream.len() == 0 {
        assert(pending + stream =~= pending);
    } else {
        let q = pending + stream.take(1);
        let rest = stream.skip(1);
        assert(q + rest =~= pending + stream);
        if is_complete(q) {
            lemma_bytewise_feeding_matches_blocking(Seq::empty(), rest);
            assert(Seq::<u8>::empty() + rest =~= rest);
            lemma_frames_after_frame(q, rest);
        } else {
            if pending.len() >= EVENT_HEADER_LEN {
                assert(header_of(q) == header_of(pending));
            }
            lemma_bytewise_feeding_matches_blocking(q, rest);
        }
    }
}

/// Each chunk is no longer than what a reader that holds `pending` asks
/// for when the chunk arrives.
pub open spec fn chunks_fit(pending: Seq<u8>, chunks: Seq<Seq<u8>>) -> bool
    decreases chunks.len(),
{
    chunks.len() == 0 || (chunks[0].len() <= wanted_of(pending) && chunks_fit(
        step(pending, chunks[0]).0,
        chunks.drop_first(),
    ))
}

/// What a frame reader that holds `pending` yields when the chunks are
/// handed to it one per call: the bytes left pending and the events, in
/// order.
pub open spec fn feed_chunks(pending: Seq<u8>, chunks: Seq<Seq<u8>>) -> (Seq<u8>, Seq<EventView>)
    decreases chunks.len(),
{
    if chunks.len() == 0 {
        (pending, Seq::empty())
    } else {
        let next = step(pending, chunks[0]);
        let rest = feed_chunks(next.0, chunks.drop_first());
        match next.1 {
            Some(e) => (rest.0, seq![e] + rest.1),
            None => rest,
        }
    }
}

/// One step of the reader on a chunk that fits: either it completes a frame,
/// whose event is the first that a blocking reader takes from the bytes, or
/// the bytes stay pending as a partial frame.
proof fn lemma_step_fits(pending: Seq<u8>, data: Seq<u8>, rest: Seq<u8>)
    requires
        is_partial(pending),
        data.len() <= wanted_of(pending),
    ensures
        is_partial(step(pending, data).0),
        match step(pending, data).1 {
            Some(e) => {
                &&& step(pending, data).0 == Seq::<u8>::empty()
                &&& frames(pending + data + rest) == seq![e] + frames(rest)
                &&& leftover(pending + data + rest) == leftover(rest)
            },
            None => step(pending, data).0 == pending + data,
        },
{
    let s = pending + data;
    if is_complete(s) {
        lemma_frames_after_frame(s, rest);
    } else if pending.len() >= EVENT_HEADER_LEN {
        assert(header_of(s) == header_of(pending));
    }
}

/// Feeding the reader in chunks of any sizes, each no longer than what it
/// asks for, yields exactly the events that a blocking reader takes from the
/// same bytes, in the same order; the bytes after the last whole frame stay
/// pending.
pub proof fn lemma_chunked_feeding_matches_blocking(pending: Seq<u8>, chunks: Seq<Seq<u8>>)
    requires
        is_partial(pending),
        chunks_fit(pending, chunks),
    ensures
        feed_chunks(pending, chunks) == (
            leftover(pending + chunks.flatten()),
            frames(pending + chunks.flatten()),
        ),
    decreases chunks.len(),
{
    if chunks.len() == 0 {
        assert(pending + chunks.flatten() =~= pending);
    } else {
        let c = chunks[0];
        let tail = chunks.drop_first();
        assert(pending + chunks.flatten() =~= pending + c + tail.flatten());
        lemma_step_fits(pending, c, tail.flatten());
        let next = step(pending, c);
        lemma_chunked_feeding_matches_blocking(next.0, tail);
        if next.1 is Some {
            assert(Seq::<u8>::empty() + tail.flatten() =~= tail.flatten());
        }
    }
}

proof fn lemma_le_bytes(x: u16)
    ensures
        le_bytes(x).len() == 2,
        le_u16(le_bytes(x)[0], le_bytes(x)[1]) == x,
{
}

/// Framing keeps an encoded event whole: the header read back names the
/// payload's length and the code, and a stream that starts with the frame
/// yields the assembler's event for that code and payload, followed by the
/// events of the rest, whether it is read blocking or one byte at a time.
pub proof fn lemma_frame_round_trip(code: u16, payload: Seq<u8>, rest: Seq<u8>)
    requires
        payload.len() <= u16::MAX,
    ensures
        header_of(encode_frame(code, payload)) == (EventHeader {
            length: payload.len() as u16,
            code,
        }),
        frames(encode_frame(code, payload) + rest) == seq![event_of(code, payload)] + frames(rest),
        leftover(encode_frame(code, payload) + rest) == leftover(rest),
        feed_bytewise(Seq::empty(), encode_frame(code, payload) + rest) == (
            leftover(rest),
            seq![event_of(code, payload)] + frames(rest),
        ),
{
    let frame = encode_frame(code, payload);
    lemma_le_bytes(payload.len() as u16);
    lemma_le_bytes(code);
    assert(header_of(frame) == EventHeader { length: payload.len() as u16, code });
    assert(frame.subrange(EVENT_HEADER_LEN as int, frame_len(frame) as int) =~= payload);
    lemma_frames_after_frame(frame, rest);
    lemma_bytewise_feeding_matches_blocking(Seq::empty(), frame + rest);
    assert(Seq::<u8>::empty() + (frame + rest) =~= frame + rest);
}

/// A field read from its two wire bytes decodes to the named variant of each
/// known value, and any other value comes back whole in `Unknown`.
pub proof fn lemma_field_decoding(v: u16, w: u16)
    ensures
        event_of(uapi::SDTX_EVENT_CANCEL, le_bytes(v)) == (EventView::Cancel {
            reason: cancel_reason_of(v),
        }),
        event_of(uapi::SDTX_EVENT_LATCH_STATUS, le_bytes(v)) == (EventView::LatchStatus {
            status: latch_status_of(v),
        }),
        event_of(uapi::SDTX_EVENT_DEVICE_MODE, le_bytes(v)) == (EventView::DeviceMode {
            mode: device_mode_of(v),
        }),
        event_of(uapi::SDTX_EVENT_BASE_CONNECTION, le_bytes(v) + le_bytes(w)) == (
        EventView::BaseConnection {
            state: base_state_of(v),
            device_type: device_type_of(w),
            id: base_id_of(w),
        }),
        v == uapi::SDTX_DETACH_NOT_FEASIBLE ==> cancel_reason_of(v) == CancelReason::Runtime(
            RuntimeError::NotFeasible,
        ),
        v == uapi::SDTX_DETACH_TIMEOUT ==> cancel_reason_of(v) == CancelReason::Runtime(
            RuntimeError::Timeout,
        ),
        v == uapi::SDTX_ERR_FAILED_TO_OPEN ==> cancel_reason_of(v) == CancelReason::Hardware(
            HardwareError::FailedToOpen,
        ) && latch_status_of(v) == LatchStatus::Error(HardwareError::FailedToOpen),
        v == uapi::SDTX_ERR_FAILED_TO_REMAIN_OPEN ==> cancel_reason_of(v) == CancelReason::Hardware(
            HardwareError::FailedToRemainOpen,
        ) && latch_status_of(v) == LatchStatus::Error(HardwareError::FailedToRemainOpen),
        v == uapi::SDTX_ERR_FAILED_TO_CLOSE ==> cancel_reason_of(v) == CancelReason::Hardware(
            HardwareError::FailedToClose,
        ) && latch_status_of(v) == LatchStatus::Error(HardwareError::FailedToClose),
        v == uapi::SDTX_LATCH_CLOSED ==> latch_status_of(v) == LatchStatus::Closed,
        v == uapi::SDTX_LATCH_OPENED ==> latch_status_of(v) == LatchStatus::Opened,
        v == uapi::SDTX_BASE_DETACHED ==> base_state_of(v) == BaseState::Detached,
        v == uapi::SDTX_BASE_ATTACHED ==> base_state_of(v) == BaseState::Attached,
        v == uapi::SDTX_DETACH_NOT_FEASIBLE ==> base_state_of(v) == BaseState::NotFeasible,
        v == uapi::SDTX_DEVICE_MODE_TABLET ==> device_mode_of(v) == DeviceMode::Tablet,
        v == uapi::SDTX_DEVICE_MODE_LAPTOP ==> device_mode_of(v) == DeviceMode::Laptop,
        v == uapi::SDTX_DEVICE_MODE_STUDIO ==> device_mode_of(v) == DeviceMode::Studio,
        cancel_reason_of(v) is Unknown <==> (category(v) != uapi::SDTX_CATEGORY_RUNTIME_ERROR
            && category(v) != uapi::SDTX_CATEGORY_HARDWARE_ERROR),
        cancel_reason_of(v) is Unknown ==> cancel_reason_of(v) == CancelReason::Unknown(v),
        latch_status_of(v) is Unknown <==> (category(v) != uapi::SDTX_CATEGORY_HARDWARE_ERROR
            && v != uapi::SDTX_LATCH_CLOSED && v != uapi::SDTX_LATCH_OPENED),
        latch_status_of(v) is Unknown ==> latch_status_of(v) == LatchStatus::Unknown(v),
        base_state_of(v) is Unknown <==> (v != uapi::SDTX_BASE_DETACHED && v
            != uapi::SDTX_BASE_ATTACHED && v != uapi::SDTX_DETACH_NOT_FEASIBLE),
        base_state_of(v) is Unknown ==> base_state_of(v) == BaseState::Unknown(v),
        device_mode_of(v) is Unknown <==> (v != uapi::SDTX_DEVICE_MODE_TABLET && v
            != uapi::SDTX_DEVICE_MODE_LAPTOP && v != uapi::SDTX_DEVICE_MODE_STUDIO),
        device_mode_of(v) is Unknown ==> device_mode_of(v) == DeviceMode::Unknown(v),
{
    lemma_le_bytes(v);
    lemma_le_bytes(w);
    assert(uapi::SDTX_LATCH_CLOSED & uapi::SDTX_CATEGORY_MASK == uapi::SDTX_CATEGORY_STATUS)
        by (bit_vector);
    assert(uapi::SDTX_LATCH_OPENED & uapi::SDTX_CATEGORY_MASK == uapi::SDTX_CATEGORY_STATUS)
        by (bit_vector);
    assert(uapi::SDTX_DETACH_NOT_FEASIBLE & uapi::SDTX_CATEGORY_MASK
        == uapi::SDTX_CATEGORY_RUNTIME_ERROR) by (bit_vector);
    assert(uapi::SDTX_DETACH_TIMEOUT & uapi::SDTX_CATEGORY_MASK
        == uapi::SDTX_CATEGORY_RUNTIME_ERROR) by (bit_vector);
    assert(uapi::SDTX_ERR_FAILED_TO_OPEN & uapi::SDTX_CATEGORY_MASK
        == uapi::SDTX_CATEGORY_HARDWARE_ERROR) by (bit_vector);
    assert(uapi::SDTX_ERR_FAILED_TO_REMAIN_OPEN & uapi::SDTX_CATEGORY_MASK
        == uapi::SDTX_CATEGORY_HARDWARE_ERROR) by (bit_vector);
    assert(uapi::SDTX_ERR_FAILED_TO_CLOSE & uapi::SDTX_CATEGORY_MASK
        == uapi::SDTX_CATEGORY_HARDWARE_ERROR) by (bit_vector);
}

/// A payload whose length is not the one its code calls for decodes to
/// `Unknown` with the code and the very same bytes, whatever they hold; and
/// decoding what an `Unknown` event keeps gives that event again.
pub proof fn lemma_degradation(code: u16, data: Seq<u8>)
    ensures
        expected_len(code) != Some(data.len()) ==> event_of(code, data) == (EventView::Unknown {
            code,
            data,
        }),
        event_of(code, data) matches EventView::Unknown { code: c, data: d } ==> c == code && d
            == data && event_of(c, d) == event_of(code, data),
{
}

/// The permissive decoders, narrowed, agree with the strict conversions of
/// the control queries: same variant for a known value, and for any other
/// the error that names the field and carries the value.
pub proof fn lemma_narrowing_matches_strict(v: u16)
    ensures
        narrow_latch_status(latch_status_of(v)) == crate::latch_status_of(v),
        narrow_base_state(base_state_of(v)) == crate::base_state_of(v),
        narrow_device_mode(device_mode_of(v)) == crate::device_mode_of(v),
        narrow_cancel_reason(cancel_reason_of(v)) is Err <==> cancel_reason_of(v) is Unknown,
        narrow_cancel_reason(cancel_reason_of(v)) is Err ==> narrow_cancel_reason(
            cancel_reason_of(v),
        ) == Err::<crate::CancelReason, ProtocolError>(ProtocolError::InvalidCancelReason(v)),
{
}

/// A stream enables event reporting exactly once, before any read is
/// possible; teardown disables it exactly once when enabling succeeded, also
/// when nothing was read, and not at all when enabling failed; a further
/// teardown asks for nothing.
pub proof fn lemma_lifecycle(ok: bool)
    ensures
        started().issued == seq![ControlCall::EnableEvents],
        started().phase != Phase::Enabled,
        (after_enabling(started(), ok).phase == Phase::Enabled) == ok,
        after_release(after_enabling(started(), ok)).issued == if ok {
            seq![ControlCall::EnableEvents, ControlCall::DisableEvents]
        } else {
            seq![ControlCall::EnableEvents]
        },
        after_release(after_enabling(started(), ok)).phase != Phase::Enabled,
        release_call(after_release(after_enabling(started(), ok))) is None,
{
    assert(seq![ControlCall::EnableEvents].push(ControlCall::DisableEvents) =~= seq![
        ControlCall::EnableEvents,
        ControlCall::DisableEvents,
    ]);
}

} // verus!
