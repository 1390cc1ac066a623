//! Fixed-capacity FIFO buffer of serial packets.

use vstd::prelude::*;

use crate::error::CommError;
use crate::packet::UartPacket;

verus! {

/// Transmit/receive buffer of serial packets: at most `max_length`
/// packets, pushed at the tail and popped at the head, with explicit
/// `BufferFull` backpressure instead of blocking.
#[derive(Debug)]
pub struct TrceBuffer {
    packets: Vec<UartPacket>,
    max_length: usize,
}

impl View for TrceBuffer {
    type V = Seq<UartPacket>;

    closed spec fn view(&self) -> Seq<UartPacket> {
        self.packets@
    }
}

impl TrceBuffer {
    /// The maximum number of packets this buffer may hold.
    pub closed spec fn max_spec(&self) -> nat {
        self.max_length as nat
    }

    /// The stored packets never exceed the capacity.
    pub open spec fn wf(&self) -> bool {
        self@.len() <= self.max_spec()
    }

    /// Whether a push would be refused.
    pub open spec fn spec_is_full(&self) -> bool {
        self@.len() >= self.max_spec()
    }

    /// Creates an empty buffer with the given capacity.
    pub fn new(max_length: usize) -> (r: Self)
        ensures
            r.wf(),
            r@ == Seq::<UartPacket>::empty(),
            r.max_spec() == max_length,
    {
        Self { packets: Vec::new(), max_length }
    }

    /// Returns the current number of stored packets.
    pub fn get_length(&self) -> (r: usize)
        ensures
            r == self@.len(),
    {
        self.packets.len()
    }

    /// Returns true if the buffer has reached its capacity.
    pub fn is_full(&self) -> (r: bool)
        ensures
            r == self.spec_is_full(),
    {
        self.packets.len() >= self.max_length
    }

    /// Returns true if the buffer holds no packets.
    pub fn is_empty(&self) -> (r: bool)
        ensures
            r == (self@.len() == 0),
    {
        self.packets.is_empty()
    }

    /// Pushes a packet at the tail; a buffer at capacity refuses with
    /// `BufferFull` and stays unchanged.
    pub fn push(&mut self, packet: UartPacket) -> (r: Result<(), CommError>)
        ensures
            final(self).max_spec() == old(self).max_spec(),
            old(self).spec_is_full() ==> r == Err::<(), CommError>(CommError::BufferFull)
                && final(self)@ == old(self)@,
            !old(self).spec_is_full() ==> r == Ok::<(), CommError>(()) && final(self)@ == old(
                self,
            )@.push(packet),
            old(self).wf() ==> final(self).wf(),
    {
        if self.packets.len() >= self.max_length {
            return Err(CommError::BufferFull);
        }
        self.packets.push(packet);
        Ok(())
    }

    /// Pops the packet at the head; an empty buffer yields `None` and
    /// never blocks.
    pub fn pop_front(&mut self) -> (r: Option<UartPacket>)
        ensures
            final(self).max_spec() == old(self).max_spec(),
            old(self)@.len() == 0 ==> r is None && final(self)@ == old(self)@,
            old(self)@.len() > 0 ==> r == Some(old(self)@[0]) && final(self)@ == old(
                self,
            )@.drop_first(),
            old(self).wf() ==> final(self).wf(),
    {
        if self.packets.is_empty() {
            None
        } else {
            let p = self.packets.remove(0);
            proof {
                assert(self.packets@ =~= old(self)@.drop_first());
            }
            Some(p)
        }
    }

    /// Takes every stored packet, leaving the buffer empty.
    pub fn take_all(&mut self) -> (r: Vec<UartPacket>)
        ensures
            final(self).max_spec() == old(self).max_spec(),
            r@ == old(self)@,
            final(self)@ == Seq::<UartPacket>::empty(),
            final(self).wf(),
    {
        let mut out: Vec<UartPacket> = Vec::new();
        core::mem::swap(&mut self.packets, &mut out);
        out
    }

    /// Renders the first `n` stored packets for logs, without removing
    /// them; no semantic role.
    pub fn show(&self, n: usize) -> (r: Vec<String>)
        ensures
            r@.len() == if n <= self@.len() {
                n as int
            } else {
                self@.len() as int
            },
    {
        let count: usize = if self.packets.len() < n {
            self.packets.len()
        } else {
            n
        };
        let mut out: Vec<String> = Vec::new();
        let mut i: usize = 0;
        while i < count
            invariant
                i <= count,
                count <= self.packets.len(),
                out@.len() == i,
            decreases count - i,
        {
            out.push(self.packets[i].show());
            i = i + 1;
        }
        out
    }
}

} // verus!
