//! Network receive/transmit buffer holding raw payloads: incoming bytes
//! are stored as bounded byte vectors, one per transport-level message.

use vstd::prelude::*;

use crate::error::CommError;
use crate::user_vec::UserVecU8;

verus! {

/// Longest payload of one network message in this buffer.
pub const WIFI_PACKET_MAX_SIZE: usize = 1024;

/// Transmit/receive buffer of raw network payloads: at most
/// `max_length` entries, FIFO order, with explicit backpressure instead
/// of blocking.
#[derive(Debug)]
pub struct WifiTrceBuffer {
    packets: Vec<UserVecU8>,
    max_length: usize,
}

impl View for WifiTrceBuffer {
    type V = Seq<UserVecU8>;

    closed spec fn view(&self) -> Seq<UserVecU8> {
        self.packets@
    }
}

impl WifiTrceBuffer {
    /// The maximum number of payloads this buffer may hold.
    pub closed spec fn max_spec(&self) -> nat {
        self.max_length as nat
    }

    /// The stored payloads never exceed the capacity.
    pub open spec fn wf(&self) -> bool {
        self@.len() <= self.max_spec()
    }

    /// Whether a push would be refused.
    pub open spec fn spec_is_full(&self) -> bool {
        self@.len() >= self.max_spec()
    }

    /// Creates an empty buffer with the given capacity.
    pub fn new(max_length: usize) -> (r: Self)
        ensures
            r.wf(),
            r@ == Seq::<UserVecU8>::empty(),
            r.max_spec() == max_length,
    {
        Self { packets: Vec::new(), max_length }
    }

    /// Returns the current number of stored payloads.
    pub fn get_length(&self) -> (r: usize)
        ensures
            r == self@.len(),
    {
        self.packets.len()
    }

    /// Returns true if the buffer has reached its capacity.
    pub fn is_full(&self) -> (r: bool)
        ensures
            r == self.spec_is_full(),
    {
        self.packets.len() >= self.max_length
    }

    /// Returns true if the buffer holds no payloads.
    pub fn is_empty(&self) -> (r: bool)
        ensures
            r == (self@.len() == 0),
    {
        self.packets.is_empty()
    }

    /// Stores one raw payload at the tail. A buffer at capacity refuses
    /// with `BufferFull`; a payload longer than `WIFI_PACKET_MAX_SIZE`
    /// is refused with `PayloadTooLong`; both leave the buffer
    /// unchanged.
    pub fn push(&mut self, data: &[u8]) -> (r: Result<(), CommError>)
        ensures
            final(self).max_spec() == old(self).max_spec(),
            old(self).spec_is_full() ==> r == Err::<(), CommError>(CommError::BufferFull)
                && final(self)@ == old(self)@,
            !old(self).spec_is_full() && data@.len() > WIFI_PACKET_MAX_SIZE ==> r == Err::<
                (),
                CommError,
            >(CommError::PayloadTooLong) && final(self)@ == old(self)@,
            !old(self).spec_is_full() && data@.len() <= WIFI_PACKET_MAX_SIZE ==> r == Ok::<
                (),
                CommError,
            >(()) && final(self)@.len() == old(self)@.len() + 1 && final(self)@.drop_last()
                == old(self)@ && final(self)@.last()@ == data@,
            old(self).wf() ==> final(self).wf(),
    {
        if self.packets.len() >= self.max_length {
            return Err(CommError::BufferFull);
        }
        let mut packet = UserVecU8::new(WIFI_PACKET_MAX_SIZE);
        match packet.extend(data) {
            Ok(()) => {},
            Err(_) => {
                return Err(CommError::PayloadTooLong);
            },
        }
        self.packets.push(packet);
        proof {
            assert(self.packets@.drop_last() =~= old(self)@);
        }
        Ok(())
    }

    /// Pops the payload at the head; an empty buffer refuses with
    /// `BufferEmpty` and never blocks.
    pub fn pop_front(&mut self) -> (r: Result<Vec<u8>, CommError>)
        ensures
            final(self).max_spec() == old(self).max_spec(),
            old(self)@.len() == 0 ==> r == Err::<Vec<u8>, CommError>(CommError::BufferEmpty)
                && final(self)@ == old(self)@,
            old(self)@.len() > 0 ==> (r matches Ok(b) && b@ == old(self)@[0]@ && final(self)@
                == old(self)@.drop_first()),
            old(self).wf() ==> final(self).wf(),
    {
        if self.packets.is_empty() {
            Err(CommError::BufferEmpty)
        } else {
            let p = self.packets.remove(0);
            proof {
                assert(self.packets@ =~= old(self)@.drop_first());
            }
            Ok(p.show())
        }
    }

    /// Takes every stored payload, leaving the buffer empty.
    pub fn take_all(&mut self) -> (r: Vec<UserVecU8>)
        ensures
            final(self).max_spec() == old(self).max_spec(),
            r@ == old(self)@,
            final(self)@ == Seq::<UserVecU8>::empty(),
            final(self).wf(),
    {
        let mut out: Vec<UserVecU8> = Vec::new();
        core::mem::swap(&mut self.packets, &mut out);
        out
    }

    /// Copies the first `n` stored payloads for logs, without removing
    /// them; no semantic role.
    pub fn show(&self, n: usize) -> (r: Vec<Vec<u8>>)
        ensures
            r@.len() == if n <= self@.len() {
                n as int
            } else {
                self@.len() as int
            },
            forall|i: int| 0 <= i < r@.len() ==> r@[i]@ == self@[i]@,
    {
        let count: usize = if self.packets.len() < n {
            self.packets.len()
        } else {
            n
        };
        let mut out: Vec<Vec<u8>> = Vec::new();
        let mut i: usize = 0;
        while i < count
            invariant
                i <= count,
                count <= self.packets.len(),
                out@.len() == i,
                forall|j: int| 0 <= j < i ==> out@[j]@ == self@[j]@,
            decreases count - i,
        {
            out.push(self.packets[i].show());
            i = i + 1;
        }
        out
    }
}

} // verus!
