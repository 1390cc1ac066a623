//! UART packet codec over bounded byte storage, and its transmit/receive
//! buffer. Frames carry the same start/end markers as the serial codec
//! but allow a longer payload.

use vstd::prelude::*;

use crate::error::CommError;
use crate::packet::frame_interior;
use crate::packet::has_frame_markers;
use crate::packet::spec_framed;
use crate::packet::PACKET_END_CODE;
use crate::packet::PACKET_START_CODE;
use crate::user_vec::UserVecU8;

verus! {

/// Longest raw UART frame, markers included.
pub const UART_PACKET_MAX_SIZE: usize = 255;

/// Longest payload a UART packet may carry.
pub const UART_PACKET_DATA_MAX_SIZE: usize = UART_PACKET_MAX_SIZE - 2;

/// One UART packet: a start marker, a bounded payload, an end marker.
#[derive(Debug)]
pub struct UartPacket {
    start: u8,
    data: UserVecU8,
    end: u8,
}

impl View for UartPacket {
    type V = Seq<u8>;

    closed spec fn view(&self) -> Seq<u8> {
        self.data@
    }
}

impl UartPacket {
    /// The packet's start marker byte.
    pub closed spec fn start_spec(&self) -> u8 {
        self.start
    }

    /// The packet's end marker byte.
    pub closed spec fn end_spec(&self) -> u8 {
        self.end
    }

    /// A well-formed packet carries the two marker bytes and a payload
    /// within the size bound.
    pub open spec fn wf(&self) -> bool {
        &&& self.start_spec() == PACKET_START_CODE
        &&& self.end_spec() == PACKET_END_CODE
        &&& self@.len() <= UART_PACKET_DATA_MAX_SIZE
    }

    /// Builds a packet around the given payload; a payload longer than
    /// `UART_PACKET_DATA_MAX_SIZE` is refused with `PayloadTooLong`.
    pub fn new(data: &[u8]) -> (r: Result<Self, CommError>)
        ensures
            data@.len() <= UART_PACKET_DATA_MAX_SIZE ==> (r matches Ok(p) && p@ == data@
                && p.wf()),
            data@.len() > UART_PACKET_DATA_MAX_SIZE ==> r == Err::<Self, CommError>(
                CommError::PayloadTooLong,
            ),
    {
        let mut user_vec = UserVecU8::new(UART_PACKET_DATA_MAX_SIZE);
        match user_vec.extend(data) {
            Ok(()) => Ok(
                Self { start: PACKET_START_CODE, data: user_vec, end: PACKET_END_CODE },
            ),
            Err(_) => Err(CommError::PayloadTooLong),
        }
    }

    /// Returns the packet start marker.
    pub fn start(&self) -> (r: u8)
        ensures
            r == self.start_spec(),
    {
        self.start
    }

    /// Returns a copy of the packet payload.
    pub fn data(&self) -> (r: Vec<u8>)
        ensures
            r@ == self@,
    {
        self.data.show()
    }

    /// Returns the packet end marker.
    pub fn end(&self) -> (r: u8)
        ensures
            r == self.end_spec(),
    {
        self.end
    }

    /// Debug rendering for logs; no semantic role.
    /// Relies on std's format! macro to render the packet fields.
    #[verifier::external_body]
    pub fn show(&self) -> String {
        format!(
            ">>> {}\n>>>   {:?}\n>>> {}",
            self.start as char,
            self.data.show(),
            self.end as char,
        )
    }

    /// Parses one raw frame. A buffer missing the start or end marker is
    /// refused with `FramingError`; an interior longer than the payload
    /// bound is refused with `PayloadTooLong`; otherwise the packet holds
    /// exactly the interior bytes.
    pub fn pack(data: Vec<u8>) -> (r: Result<Self, CommError>)
        ensures
            !has_frame_markers(data@) ==> r == Err::<Self, CommError>(CommError::FramingError),
            has_frame_markers(data@) && frame_interior(data@).len() > UART_PACKET_DATA_MAX_SIZE
                ==> r == Err::<Self, CommError>(CommError::PayloadTooLong),
            has_frame_markers(data@) && frame_interior(data@).len() <= UART_PACKET_DATA_MAX_SIZE
                ==> (r matches Ok(p) && p@ == frame_interior(data@) && p.wf()),
    {
        if data.len() == 0 || data[0] != PACKET_START_CODE {
            return Err(CommError::FramingError);
        }
        if data[data.len() - 1] != PACKET_END_CODE {
            return Err(CommError::FramingError);
        }
        proof {
            assert(data@.len() >= 2);
        }
        let mut interior: Vec<u8> = Vec::new();
        let mut i: usize = 1;
        while i < data.len() - 1
            invariant
                1 <= i <= data.len() - 1,
                data@.len() >= 2,
                interior@ == data@.subrange(1, i as int),
            decreases data.len() - i,
        {
            interior.push(data[i]);
            i = i + 1;
            proof {
                assert(interior@ =~= data@.subrange(1, i as int));
            }
        }
        proof {
            assert(interior@ =~= frame_interior(data@));
        }
        Self::new(interior.as_slice())
    }

    /// Serializes the packet into one raw frame: start marker, payload,
    /// end marker.
    pub fn unpack(&self) -> (r: Vec<u8>)
        ensures
            r@ == seq![self.start_spec()] + self@ + seq![self.end_spec()],
            self.wf() ==> r@ == spec_framed(self@),
    {
        let mut buffer: Vec<u8> = Vec::new();
        buffer.push(self.start);
        let data = self.data.show();
        let mut i: usize = 0;
        while i < data.len()
            invariant
                i <= data.len(),
                data@ == self@,
                buffer@ == seq![self.start_spec()] + data@.subrange(0, i as int),
            decreases data.len() - i,
        {
            buffer.push(data[i]);
            i = i + 1;
            proof {
                assert(buffer@ =~= seq![self.start_spec()] + data@.subrange(0, i as int));
            }
        }
        buffer.push(self.end);
        proof {
            assert(buffer@ =~= seq![self.start_spec()] + self@ + seq![self.end_spec()]);
            if self.wf() {
                assert(buffer@ =~= spec_framed(self@));
            }
        }
        buffer
    }
}

/// Transmit/receive buffer of UART packets: at most `max_length` packets,
/// FIFO order, with explicit `BufferFull`/`BufferEmpty` backpressure
/// instead of blocking.
#[derive(Debug)]
pub struct UartTransceiveBuffer {
    packets: Vec<UartPacket>,
    max_length: usize,
}

impl View for UartTransceiveBuffer {
    type V = Seq<UartPacket>;

    closed spec fn view(&self) -> Seq<UartPacket> {
        self.packets@
    }
}

impl UartTransceiveBuffer {
    /// The maximum number of packets this buffer may hold.
    pub closed spec fn max_spec(&self) -> nat {
        self.max_length as nat
    }

    /// The stored packets never exceed the capacity.
    pub open spec fn wf(&self) -> bool {
        self@.len() <= self.max_spec()
    }

    /// Whether a push would be refused.
    pub open spec fn spec_is_full(&self) -> bool {
        self@.len() >= self.max_spec()
    }

    /// Creates an empty buffer with the given capacity.
    pub fn new(max_length: usize) -> (r: Self)
        ensures
            r.wf(),
            r@ == Seq::<UartPacket>::empty(),
            r.max_spec() == max_length,
    {
        Self { packets: Vec::new(), max_length }
    }

    /// Returns the current number of stored packets.
    pub fn get_length(&self) -> (r: usize)
        ensures
            r == self@.len(),
    {
        self.packets.len()
    }

    /// Returns true if the buffer has reached its capacity.
    pub fn is_full(&self) -> (r: bool)
        ensures
            r == self.spec_is_full(),
    {
        self.packets.len() >= self.max_length
    }

    /// Returns true if the buffer holds no packets.
    pub fn is_empty(&self) -> (r: bool)
        ensures
            r == (self@.len() == 0),
    {
        self.packets.is_empty()
    }

    /// Pushes a packet at the tail; a buffer at capacity refuses with
    /// `BufferFull` and stays unchanged.
    pub fn push(&mut self, packet: UartPacket) -> (r: Result<(), CommError>)
        ensures
            final(self).max_spec() == old(self).max_spec(),
            old(self).spec_is_full() ==> r == Err::<(), CommError>(CommError::BufferFull)
                && final(self)@ == old(self)@,
            !old(self).spec_is_full() ==> r == Ok::<(), CommError>(()) && final(self)@ == old(
                self,
            )@.push(packet),
            old(self).wf() ==> final(self).wf(),
    {
        if self.packets.len() >= self.max_length {
            return Err(CommError::BufferFull);
        }
        self.packets.push(packet);
        Ok(())
    }

    /// Pops the packet at the head; an empty buffer refuses with
    /// `BufferEmpty` and never blocks.
    pub fn pop_front(&mut self) -> (r: Result<UartPacket, CommError>)
        ensures
            final(self).max_spec() == old(self).max_spec(),
            old(self)@.len() == 0 ==> r == Err::<UartPacket, CommError>(CommError::BufferEmpty)
                && final(self)@ == old(self)@,
            old(self)@.len() > 0 ==> (r matches Ok(p) && p == old(self)@[0] && final(self)@
                == old(self)@.drop_first()),
            old(self).wf() ==> final(self).wf(),
    {
        if self.packets.is_empty() {
            Err(CommError::BufferEmpty)
        } else {
            let p = self.packets.remove(0);
            proof {
                assert(self.packets@ =~= old(self)@.drop_first());
            }
            Ok(p)
        }
    }

    /// Takes every stored packet, leaving the buffer empty.
    pub fn take_all(&mut self) -> (r: Vec<UartPacket>)
        ensures
            final(self).max_spec() == old(self).max_spec(),
            r@ == old(self)@,
            final(self)@ == Seq::<UartPacket>::empty(),
            final(self).wf(),
    {
        let mut out: Vec<UartPacket> = Vec::new();
        core::mem::swap(&mut self.packets, &mut out);
        out
    }

    /// Renders the first `n` stored packets for logs, without removing
    /// them; no semantic role.
    pub fn show(&self, n: usize) -> (r: Vec<String>)
        ensures
            r@.len() == if n <= self@.len() {
                n as int
            } else {
                self@.len() as int
            },
    {
        let count: usize = if self.packets.len() < n {
            self.packets.len()
        } else {
            n
        };
        let mut out: Vec<String> = Vec::new();
        let mut i: usize = 0;
        while i < count
            invariant
                i <= count,
                count <= self.packets.len(),
                out@.len() == i,
            decreases count - i,
        {
            out.push(self.packets[i].show());
            i = i + 1;
        }
        out
    }
}

} // verus!
