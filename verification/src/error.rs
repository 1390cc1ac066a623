//! Error taxonomy of the link core.

use vstd::prelude::*;

verus! {

/// Every failure the transport/packet core can report.
///
/// Buffer and connection errors are surfaced synchronously to callers;
/// framing and transport errors inside the background workers are logged
/// and retried by the caller, never fatal.
#[derive(Clone, Copy, Debug, PartialEq, Eq, Structural)]
pub enum CommError {
    /// A payload longer than the packet's maximum was supplied.
    PayloadTooLong,
    /// A raw frame is missing its start or end marker, or a read timed out
    /// without a terminating end marker.
    FramingError,
    /// A bounded buffer is at capacity; the caller must retry later.
    BufferFull,
    /// A bounded buffer has nothing to pop; the caller must retry later.
    BufferEmpty,
    /// The connection is not open.
    NotOpen,
    /// The transport could not be acquired, or a connection is already open.
    OpenFailed,
    /// A transport-level read or write failed.
    TransportIo,
    /// Too few bytes remained for a fixed-width telemetry value.
    DecodeError,
}

} // verus!
