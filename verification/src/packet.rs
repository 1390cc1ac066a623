//! Serial packet codec: one frame is a start marker, up to
//! `PACKET_DATA_MAX_SIZE` payload bytes, and an end marker.

use vstd::prelude::*;

use crate::error::CommError;

verus! {

/// Marker byte that opens every serial frame.
pub const PACKET_START_CODE: u8 = 0x7B;

/// Marker byte that closes every serial frame.
pub const PACKET_END_CODE: u8 = 0x7D;

/// Longest payload a serial packet may carry.
pub const PACKET_DATA_MAX_SIZE: usize = 38;

/// Longest raw frame: payload plus the two marker bytes.
pub const PACKET_MAX_SIZE: usize = PACKET_DATA_MAX_SIZE + 2;

/// The serialized form of a payload: start marker, payload, end marker.
pub open spec fn spec_framed(payload: Seq<u8>) -> Seq<u8> {
    seq![PACKET_START_CODE] + payload + seq![PACKET_END_CODE]
}

/// Whether a raw buffer begins with the start marker and ends with the
/// end marker.
pub open spec fn has_frame_markers(raw: Seq<u8>) -> bool {
    raw.len() > 0 && raw[0] == PACKET_START_CODE && raw.last() == PACKET_END_CODE
}

/// The payload between the two marker bytes of a raw frame.
pub open spec fn frame_interior(raw: Seq<u8>) -> Seq<u8> {
    raw.subrange(1, raw.len() - 1)
}

/// Framing a payload yields a buffer with both markers whose interior is
/// that payload, whatever its length.
pub proof fn lemma_frame_roundtrip(payload: Seq<u8>)
    ensures
        has_frame_markers(spec_framed(payload)),
        frame_interior(spec_framed(payload)) == payload,
{
    let raw = spec_framed(payload);
    assert(raw.last() == PACKET_END_CODE);
    assert(frame_interior(raw) =~= payload);
}

/// A raw buffer with both markers is exactly the framing of its interior.
pub proof fn lemma_frame_reassembly(raw: Seq<u8>)
    requires
        has_frame_markers(raw),
    ensures
        spec_framed(frame_interior(raw)) == raw,
{
    assert(raw.len() >= 2) by {
        if raw.len() == 1 {
            assert(raw[0] == PACKET_START_CODE && raw.last() == PACKET_END_CODE);
        }
    }
    assert(spec_framed(frame_interior(raw)) =~= raw);
}

/// One serial packet: a start marker, a bounded payload, an end marker.
#[derive(Debug, Clone)]
pub struct UartPacket {
    start: u8,
    data: Vec<u8>,
    end: u8,
}

impl View for UartPacket {
    type V = Seq<u8>;

    closed spec fn view(&self) -> Seq<u8> {
        self.data@
    }
}

impl UartPacket {
    /// The packet's start marker byte.
    pub closed spec fn start_spec(&self) -> u8 {
        self.start
    }

    /// The packet's end marker byte.
    pub closed spec fn end_spec(&self) -> u8 {
        self.end
    }

    /// A well-formed packet carries the two marker bytes and a payload
    /// within the size bound.
    pub open spec fn wf(&self) -> bool {
        &&& self.start_spec() == PACKET_START_CODE
        &&& self.end_spec() == PACKET_END_CODE
        &&& self@.len() <= PACKET_DATA_MAX_SIZE
    }

    /// Builds a packet around the given payload; a payload longer than
    /// `PACKET_DATA_MAX_SIZE` is refused with `PayloadTooLong`.
    pub fn new(data: Vec<u8>) -> (r: Result<Self, CommError>)
        ensures
            data@.len() <= PACKET_DATA_MAX_SIZE ==> (r matches Ok(p) && p@ == data@ && p.wf()),
            data@.len() > PACKET_DATA_MAX_SIZE ==> r == Err::<Self, CommError>(
                CommError::PayloadTooLong,
            ),
    {
        if data.len() > PACKET_DATA_MAX_SIZE {
            return Err(CommError::PayloadTooLong);
        }
        Ok(Self { start: PACKET_START_CODE, data, end: PACKET_END_CODE })
    }

    /// Returns the packet start marker.
    pub fn start(&self) -> (r: u8)
        ensures
            r == self.start_spec(),
    {
        self.start
    }

    /// Returns a copy of the packet payload.
    pub fn data(&self) -> (r: Vec<u8>)
        ensures
            r@ == self@,
    {
        let mut out: Vec<u8> = Vec::new();
        let mut i: usize = 0;
        while i < self.data.len()
            invariant
                i <= self.data.len(),
                out@ == self.data@.subrange(0, i as int),
            decreases self.data.len() - i,
        {
            out.push(self.data[i]);
            i = i + 1;
            proof {
                assert(out@ =~= self.data@.subrange(0, i as int));
            }
        }
        proof {
            assert(out@ =~= self.data@);
        }
        out
    }

    /// Returns the packet end marker.
    pub fn end(&self) -> (r: u8)
        ensures
            r == self.end_spec(),
    {
        self.end
    }

    /// Debug rendering for logs; no semantic role.
    /// Relies on std's format! macro to render the packet fields.
    #[verifier::external_body]
    pub fn show(&self) -> String {
        format!(">>> {}\n>>>   {:?}\n>>> {}", self.start as char, self.data, self.end as char)
    }

    /// Reports `FramingError` unless the packet's start marker is the
    /// expected start code.
    pub fn check_start_code(&self) -> (r: Result<(), CommError>)
        ensures
            self.start_spec() == PACKET_START_CODE ==> r == Ok::<(), CommError>(()),
            self.start_spec() != PACKET_START_CODE ==> r == Err::<(), CommError>(
                CommError::FramingError,
            ),
    {
        if self.start != PACKET_START_CODE {
            return Err(CommError::FramingError);
        }
        Ok(())
    }

    /// Reports `FramingError` unless the packet's end marker is the
    /// expected end code.
    pub fn check_end_code(&self) -> (r: Result<(), CommError>)
        ensures
            self.end_spec() == PACKET_END_CODE ==> r == Ok::<(), CommError>(()),
            self.end_spec() != PACKET_END_CODE ==> r == Err::<(), CommError>(
                CommError::FramingError,
            ),
    {
        if self.end != PACKET_END_CODE {
            return Err(CommError::FramingError);
        }
        Ok(())
    }

    /// Parses one raw frame. A buffer missing the start or end marker is
    /// refused with `FramingError`; an interior longer than the payload
    /// bound is refused with `PayloadTooLong`; otherwise the packet holds
    /// exactly the interior bytes.
    pub fn pack(data: Vec<u8>) -> (r: Result<Self, CommError>)
        ensures
            !has_frame_markers(data@) ==> r == Err::<Self, CommError>(CommError::FramingError),
            has_frame_markers(data@) && frame_interior(data@).len() > PACKET_DATA_MAX_SIZE ==> r
                == Err::<Self, CommError>(CommError::PayloadTooLong),
            has_frame_markers(data@) && frame_interior(data@).len() <= PACKET_DATA_MAX_SIZE ==> (r
                matches Ok(p) && p@ == frame_interior(data@) && p.wf()),
    {
        if data.len() == 0 || data[0] != PACKET_START_CODE {
            return Err(CommError::FramingError);
        }
        if data[data.len() - 1] != PACKET_END_CODE {
            return Err(CommError::FramingError);
        }
        proof {
            assert(data@.len() >= 2);
        }
        let mut interior: Vec<u8> = Vec::new();
        let mut i: usize = 1;
        while i < data.len() - 1
            invariant
                1 <= i <= data.len() - 1,
                data@.len() >= 2,
                interior@ == data@.subrange(1, i as int),
            decreases data.len() - i,
        {
            interior.push(data[i]);
            i = i + 1;
            proof {
                assert(interior@ =~= data@.subrange(1, i as int));
            }
        }
        proof {
            assert(interior@ =~= frame_interior(data@));
        }
        Self::new(interior)
    }

    /// Serializes the packet back into one raw frame: start marker,
    /// payload, end marker. A packet whose markers were corrupted is
    /// refused with `FramingError`.
    pub fn unpack(&self) -> (r: Result<Vec<u8>, CommError>)
        ensures
            self.start_spec() == PACKET_START_CODE && self.end_spec() == PACKET_END_CODE ==> (r
                matches Ok(b) && b@ == spec_framed(self@)),
            self.start_spec() != PACKET_START_CODE || self.end_spec() != PACKET_END_CODE ==> r
                == Err::<Vec<u8>, CommError>(CommError::FramingError),
    {
        self.check_start_code()?;
        self.check_end_code()?;
        let mut buffer: Vec<u8> = Vec::new();
        buffer.push(self.start);
        let mut i: usize = 0;
        while i < self.data.len()
            invariant
                i <= self.data.len(),
                buffer@ == seq![self.start_spec()] + self.data@.subrange(0, i as int),
            decreases self.data.len() - i,
        {
            buffer.push(self.data[i]);
            i = i + 1;
            proof {
                assert(buffer@ =~= seq![self.start_spec()] + self.data@.subrange(0, i as int));
            }
        }
        buffer.push(self.end);
        proof {
            assert(buffer@ =~= spec_framed(self@));
        }
        Ok(buffer)
    }
}

} // verus!
