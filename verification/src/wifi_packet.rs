//! Network packet and its transmit/receive buffer. The network variant
//! carries a bare payload plus an implicit target address: no start/end
//! markers are added on the wire.

use vstd::prelude::*;

use crate::error::CommError;
use crate::user_vec::UserVecU8;

verus! {

/// Longest payload of one TCP message.
pub const WIFI_TCP_PACKET_MAX_SIZE: usize = 1024;

/// Longest payload of one UDP datagram.
pub const WIFI_UDP_PACKET_MAX_SIZE: usize = 1024;

/// A host address as four plain octets; the transport layer outside the
/// library converts between this and its own address types.
#[derive(Clone, Copy, Debug, PartialEq, Eq, Structural)]
pub struct HostIp {
    pub o0: u8,
    pub o1: u8,
    pub o2: u8,
    pub o3: u8,
}

/// One network packet: a target address and a bounded payload.
#[derive(Debug)]
pub struct WifiPacket {
    target_ip: HostIp,
    data: UserVecU8,
}

impl View for WifiPacket {
    type V = Seq<u8>;

    closed spec fn view(&self) -> Seq<u8> {
        self.data@
    }
}

impl WifiPacket {
    /// The packet's target address.
    pub closed spec fn target_ip_spec(&self) -> HostIp {
        self.target_ip
    }

    /// The payload stays within the network frame bound.
    pub open spec fn wf(&self) -> bool {
        self@.len() <= WIFI_TCP_PACKET_MAX_SIZE
    }

    /// Builds a packet for the given target; a payload longer than
    /// `WIFI_TCP_PACKET_MAX_SIZE` is refused with `PayloadTooLong`.
    pub fn new(target_ip: HostIp, data: &[u8]) -> (r: Result<Self, CommError>)
        ensures
            data@.len() <= WIFI_TCP_PACKET_MAX_SIZE ==> (r matches Ok(p) && p@ == data@ && p.wf()
                && p.target_ip_spec() == target_ip),
            data@.len() > WIFI_TCP_PACKET_MAX_SIZE ==> r == Err::<Self, CommError>(
                CommError::PayloadTooLong,
            ),
    {
        let mut user_vec = UserVecU8::new(WIFI_TCP_PACKET_MAX_SIZE);
        match user_vec.extend(data) {
            Ok(()) => Ok(Self { target_ip, data: user_vec }),
            Err(_) => Err(CommError::PayloadTooLong),
        }
    }

    /// Returns the packet's target address.
    pub fn target_ip(&self) -> (r: HostIp)
        ensures
            r == self.target_ip_spec(),
    {
        self.target_ip
    }

    /// Returns a copy of the packet payload.
    pub fn data(&self) -> (r: Vec<u8>)
        ensures
            r@ == self@,
    {
        self.data.show()
    }

    /// Debug rendering for logs; no semantic role.
    /// Relies on std's format! macro to render the payload.
    #[verifier::external_body]
    pub fn show(&self) -> String {
        format!(">>>   {:?}", self.data.show())
    }
}

/// Transmit/receive buffer of network packets: at most `max_pkt_length`
/// packets, FIFO order, with explicit backpressure instead of blocking.
#[derive(Debug)]
pub struct WifiTrceBuffer {
    packets: Vec<WifiPacket>,
    max_pkt_length: usize,
    max_pkt_data_length: usize,
}

impl View for WifiTrceBuffer {
    type V = Seq<WifiPacket>;

    closed spec fn view(&self) -> Seq<WifiPacket> {
        self.packets@
    }
}

impl WifiTrceBuffer {
    /// The maximum number of packets this buffer may hold.
    pub closed spec fn max_spec(&self) -> nat {
        self.max_pkt_length as nat
    }

    /// The payload bound this buffer was created for.
    pub closed spec fn max_data_spec(&self) -> nat {
        self.max_pkt_data_length as nat
    }

    /// The stored packets never exceed the capacity.
    pub open spec fn wf(&self) -> bool {
        self@.len() <= self.max_spec()
    }

    /// Whether a push would be refused.
    pub open spec fn spec_is_full(&self) -> bool {
        self@.len() >= self.max_spec()
    }

    /// Creates an empty buffer with the given capacity and payload
    /// bound.
    pub fn new(max_pkt_length: usize, max_pkt_data_length: usize) -> (r: Self)
        ensures
            r.wf(),
            r@ == Seq::<WifiPacket>::empty(),
            r.max_spec() == max_pkt_length,
            r.max_data_spec() == max_pkt_data_length,
    {
        Self { packets: Vec::new(), max_pkt_length, max_pkt_data_length }
    }

    /// Returns the current number of stored packets.
    pub fn get_length(&self) -> (r: usize)
        ensures
            r == self@.len(),
    {
        self.packets.len()
    }

    /// Returns true if the buffer has reached its capacity.
    pub fn is_full(&self) -> (r: bool)
        ensures
            r == self.spec_is_full(),
    {
        self.packets.len() >= self.max_pkt_length
    }

    /// Returns true if the buffer holds no packets.
    pub fn is_empty(&self) -> (r: bool)
        ensures
            r == (self@.len() == 0),
    {
        self.packets.is_empty()
    }

    /// Pushes a packet at the tail; a buffer at capacity refuses with
    /// `BufferFull` and stays unchanged.
    pub fn push(&mut self, packet: WifiPacket) -> (r: Result<(), CommError>)
        ensures
            final(self).max_spec() == old(self).max_spec(),
            final(self).max_data_spec() == old(self).max_data_spec(),
            old(self).spec_is_full() ==> r == Err::<(), CommError>(CommError::BufferFull)
                && final(self)@ == old(self)@,
            !old(self).spec_is_full() ==> r == Ok::<(), CommError>(()) && final(self)@ == old(
                self,
            )@.push(packet),
            old(self).wf() ==> final(self).wf(),
    {
        if self.packets.len() >= self.max_pkt_length {
            return Err(CommError::BufferFull);
        }
        self.packets.push(packet);
        Ok(())
    }

    /// Pops the packet at the head; an empty buffer refuses with
    /// `BufferEmpty` and never blocks.
    pub fn pop_front(&mut self) -> (r: Result<WifiPacket, CommError>)
        ensures
            final(self).max_spec() == old(self).max_spec(),
            final(self).max_data_spec() == old(self).max_data_spec(),
            old(self)@.len() == 0 ==> r == Err::<WifiPacket, CommError>(CommError::BufferEmpty)
                && final(self)@ == old(self)@,
            old(self)@.len() > 0 ==> (r matches Ok(p) && p == old(self)@[0] && final(self)@
                == old(self)@.drop_first()),
            old(self).wf() ==> final(self).wf(),
    {
        if self.packets.is_empty() {
            Err(CommError::BufferEmpty)
        } else {
            let p = self.packets.remove(0);
            proof {
                assert(self.packets@ =~= old(self)@.drop_first());
            }
            Ok(p)
        }
    }

    /// Takes every stored packet, leaving the buffer empty.
    pub fn take_all(&mut self) -> (r: Vec<WifiPacket>)
        ensures
            final(self).max_spec() == old(self).max_spec(),
            final(self).max_data_spec() == old(self).max_data_spec(),
            r@ == old(self)@,
            final(self)@ == Seq::<WifiPacket>::empty(),
            final(self).wf(),
    {
        let mut out: Vec<WifiPacket> = Vec::new();
        core::mem::swap(&mut self.packets, &mut out);
        out
    }

    /// Renders the first `n` stored packets for logs, without removing
    /// them; no semantic role.
    pub fn show(&self, n: usize) -> (r: Vec<String>)
        ensures
            r@.len() == if n <= self@.len() {
                n as int
            } else {
                self@.len() as int
            },
    {
        let count: usize = if self.packets.len() < n {
            self.packets.len()
        } else {
            n
        };
        let mut out: Vec<String> = Vec::new();
        let mut i: usize = 0;
        while i < count
            invariant
                i <= count,
                count <= self.packets.len(),
                out@.len() == i,
            decreases count - i,
        {
            out.push(self.packets[i].show());
            i = i + 1;
        }
        out
    }
}

} // verus!
