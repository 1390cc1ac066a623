//! Pure decision logic of the transport worker loops.
//!
//! The reader worker feeds every transport event (a received byte, a
//! timeout, a read failure) into `read_step`, which assembles frames
//! with byte-timeout reassembly and tells the worker what to do next;
//! the writer worker drains the transmit buffer one serialized frame at
//! a time through `writer_pop_frame`. The awaiting, sleeping and actual
//! I/O stay outside the library.

use vstd::prelude::*;

use crate::error::CommError;
use crate::packet::frame_interior;
use crate::packet::has_frame_markers;
use crate::packet::spec_framed;
use crate::packet::PACKET_END_CODE;
use crate::uart_packet::UartPacket;
use crate::uart_packet::UART_PACKET_DATA_MAX_SIZE;
use crate::uart_packet::UART_PACKET_MAX_SIZE;
use crate::uart_packet_proc::UartTrceBuffer;

verus! {

/// One observation of the reader worker.
#[derive(Debug)]
pub enum ReadEvent {
    /// A byte arrived before the per-byte timeout.
    ByteRead(u8),
    /// The per-byte timeout elapsed with nothing read.
    TimedOut,
    /// The transport failed with a non-timeout read error.
    ReadFailed,
}

/// What the reader worker must do after one observation.
#[derive(Debug)]
pub enum ReadAction {
    /// Keep reading: the frame in progress is not complete yet.
    KeepReading,
    /// No data is in flight; sleep briefly and retry.
    Idle,
    /// A complete frame was assembled; hand it to the receive buffer.
    DeliverFrame(UartPacket),
    /// The frame in progress was broken; it has been discarded, and the
    /// worker logs the error and resumes with a fresh frame.
    Discard(CommError),
}

/// Feeds one transport event into the frame being assembled and decides
/// what the reader does next: bytes accumulate up to the frame bound; a
/// timeout on an empty frame means no data yet; a timeout without the
/// end marker is a framing error that discards the partial frame; a
/// timeout after the end marker completes the frame, which is parsed
/// into a packet. Errors never terminate the worker.
pub fn read_step(frame: &mut Vec<u8>, event: ReadEvent) -> (r: ReadAction)
    ensures
        event matches ReadEvent::ByteRead(b) ==> {
            &&& old(frame)@.len() + 1 < UART_PACKET_MAX_SIZE ==> r is KeepReading && final(frame)@ == old(frame)@.push(b)
            &&& old(frame)@.len() + 1 == UART_PACKET_MAX_SIZE ==> final(frame)@.len() == 0 && ({
                let raw = old(frame)@.push(b);
                &&& !has_frame_markers(raw) ==> r == ReadAction::Discard(
                    CommError::FramingError,
                )
                &&& has_frame_markers(raw) && frame_interior(raw).len()
                    <= UART_PACKET_DATA_MAX_SIZE ==> (r matches ReadAction::DeliverFrame(p)
                    && p@ == frame_interior(raw) && p.wf())
            })
            &&& old(frame)@.len() + 1 > UART_PACKET_MAX_SIZE ==> r == ReadAction::Discard(
                CommError::FramingError,
            ) && final(frame)@.len() == 0
        },
        event == ReadEvent::TimedOut && old(frame)@.len() == 0 ==> r is Idle && final(frame)@
            == old(frame)@,
        event == ReadEvent::TimedOut && old(frame)@.len() > 0 && old(frame)@.last()
            != PACKET_END_CODE ==> r == ReadAction::Discard(CommError::FramingError) && final(frame)@.len() == 0,
        event == ReadEvent::TimedOut && old(frame)@.len() > 0 && old(frame)@.last()
            == PACKET_END_CODE ==> final(frame)@.len() == 0 && ({
            let raw = old(frame)@;
            &&& !has_frame_markers(raw) ==> r == ReadAction::Discard(CommError::FramingError)
            &&& has_frame_markers(raw) && frame_interior(raw).len() > UART_PACKET_DATA_MAX_SIZE
                ==> r == ReadAction::Discard(CommError::PayloadTooLong)
            &&& has_frame_markers(raw) && frame_interior(raw).len() <= UART_PACKET_DATA_MAX_SIZE
                ==> (r matches ReadAction::DeliverFrame(p) && p@ == frame_interior(raw)
                && p.wf())
        }),
        event == ReadEvent::ReadFailed ==> r == ReadAction::Discard(CommError::TransportIo)
            && final(frame)@.len() == 0,
{
    match event {
        ReadEvent::ByteRead(b) => {
            if frame.len() < UART_PACKET_MAX_SIZE - 1 {
                frame.push(b);
                ReadAction::KeepReading
            } else if frame.len() == UART_PACKET_MAX_SIZE - 1 {
                frame.push(b);
                let mut buffer: Vec<u8> = Vec::new();
                core::mem::swap(frame, &mut buffer);
                match UartPacket::pack(buffer) {
                    Ok(p) => ReadAction::DeliverFrame(p),
                    Err(e) => ReadAction::Discard(e),
                }
            } else {
                frame.clear();
                ReadAction::Discard(CommError::FramingError)
            }
        },
        ReadEvent::TimedOut => {
            if frame.len() == 0 {
                ReadAction::Idle
            } else if frame[frame.len() - 1] != PACKET_END_CODE {
                frame.clear();
                ReadAction::Discard(CommError::FramingError)
            } else {
                let mut buffer: Vec<u8> = Vec::new();
                core::mem::swap(frame, &mut buffer);
                match UartPacket::pack(buffer) {
                    Ok(p) => ReadAction::DeliverFrame(p),
                    Err(e) => ReadAction::Discard(e),
                }
            }
        },
        ReadEvent::ReadFailed => {
            frame.clear();
            ReadAction::Discard(CommError::TransportIo)
        },
    }
}

/// One writer-loop iteration on the transmit buffer: pops the front
/// packet and serializes it into the frame the worker writes to the
/// transport. An empty buffer refuses with `BufferEmpty`, and the
/// worker sleeps and retries instead of blocking.
pub fn writer_pop_frame(transmit: &mut UartTrceBuffer) -> (r: Result<Vec<u8>, CommError>)
    ensures
        final(transmit).max_spec() == old(transmit).max_spec(),
        old(transmit).wf() ==> final(transmit).wf(),
        old(transmit)@.len() == 0 ==> r == Err::<Vec<u8>, CommError>(CommError::BufferEmpty)
            && final(transmit)@ == old(transmit)@,
        old(transmit)@.len() > 0 ==> (r matches Ok(b) && b@ == seq![
            old(transmit)@[0].start_spec(),
        ] + old(transmit)@[0]@ + seq![old(transmit)@[0].end_spec()] && final(transmit)@ == old(transmit)@.drop_first()),
        old(transmit)@.len() > 0 && old(transmit)@[0].wf() ==> (r matches Ok(b) && b@
            == spec_framed(old(transmit)@[0]@)),
{
    match transmit.pop_front() {
        Ok(p) => Ok(p.unpack()),
        Err(e) => Err(e),
    }
}

} // verus!
