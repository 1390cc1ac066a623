//! UART receive/transmit buffer and the telemetry dispatcher that
//! demultiplexes received frame payloads into the bounded history store.

use vstd::prelude::*;

use crate::error::CommError;
use crate::mcu_const::CMD_CODE_ADC;
use crate::mcu_const::CMD_CODE_DATA_TRRE;
use crate::mcu_const::CMD_CODE_MOTOR_LEFT;
use crate::mcu_const::CMD_CODE_MOTOR_RIGHT;
use crate::mcu_const::CMD_CODE_SPEED;
use crate::mcu_store::spec_store_push;
use crate::mcu_store::DataStore;
use crate::mcu_store::DataType;
use crate::mcu_store::MotorDataType;
use crate::mcu_store::StoreModel;
use crate::uart_packet::UartPacket;

verus! {

/// Transmit/receive buffer of UART packets: at most `max_length`
/// packets, FIFO order, with explicit `BufferFull`/`BufferEmpty`
/// backpressure instead of blocking.
#[derive(Debug)]
pub struct UartTrceBuffer {
    packets: Vec<UartPacket>,
    max_length: usize,
}

impl View for UartTrceBuffer {
    type V = Seq<UartPacket>;

    closed spec fn view(&self) -> Seq<UartPacket> {
        self.packets@
    }
}

impl UartTrceBuffer {
    /// The maximum number of packets this buffer may hold.
    pub closed spec fn max_spec(&self) -> nat {
        self.max_length as nat
    }

    /// The stored packets never exceed the capacity.
    pub open spec fn wf(&self) -> bool {
        self@.len() <= self.max_spec()
    }

    /// Whether a push would be refused.
    pub open spec fn spec_is_full(&self) -> bool {
        self@.len() >= self.max_spec()
    }

    /// Creates an empty buffer with the given capacity.
    pub fn new(max_length: usize) -> (r: Self)
        ensures
            r.wf(),
            r@ == Seq::<UartPacket>::empty(),
            r.max_spec() == max_length,
    {
        Self { packets: Vec::new(), max_length }
    }

    /// Returns the current number of stored packets.
    pub fn get_length(&self) -> (r: usize)
        ensures
            r == self@.len(),
    {
        self.packets.len()
    }

    /// Returns true if the buffer has reached its capacity.
    pub fn is_full(&self) -> (r: bool)
        ensures
            r == self.spec_is_full(),
    {
        self.packets.len() >= self.max_length
    }

    /// Returns true if the buffer holds no packets.
    pub fn is_empty(&self) -> (r: bool)
        ensures
            r == (self@.len() == 0),
    {
        self.packets.is_empty()
    }

    /// Pushes a packet at the tail; a buffer at capacity refuses with
    /// `BufferFull` and stays unchanged.
    pub fn push(&mut self, packet: UartPacket) -> (r: Result<(), CommError>)
        ensures
            final(self).max_spec() == old(self).max_spec(),
            old(self).spec_is_full() ==> r == Err::<(), CommError>(CommError::BufferFull)
                && final(self)@ == old(self)@,
            !old(self).spec_is_full() ==> r == Ok::<(), CommError>(()) && final(self)@ == old(
                self,
            )@.push(packet),
            old(self).wf() ==> final(self).wf(),
    {
        if self.packets.len() >= self.max_length {
            return Err(CommError::BufferFull);
        }
        self.packets.push(packet);
        Ok(())
    }

    /// Pops the packet at the head; an empty buffer refuses with
    /// `BufferEmpty` and never blocks.
    pub fn pop_front(&mut self) -> (r: Result<UartPacket, CommError>)
        ensures
            final(self).max_spec() == old(self).max_spec(),
            old(self)@.len() == 0 ==> r == Err::<UartPacket, CommError>(CommError::BufferEmpty)
                && final(self)@ == old(self)@,
            old(self)@.len() > 0 ==> (r matches Ok(p) && p == old(self)@[0] && final(self)@
                == old(self)@.drop_first()),
            old(self).wf() ==> final(self).wf(),
    {
        if self.packets.is_empty() {
            Err(CommError::BufferEmpty)
        } else {
            let p = self.packets.remove(0);
            proof {
                assert(self.packets@ =~= old(self)@.drop_first());
            }
            Ok(p)
        }
    }

    /// Takes every stored packet, leaving the buffer empty.
    pub fn take_all(&mut self) -> (r: Vec<UartPacket>)
        ensures
            final(self).max_spec() == old(self).max_spec(),
            r@ == old(self)@,
            final(self)@ == Seq::<UartPacket>::empty(),
            final(self).wf(),
    {
        let mut out: Vec<UartPacket> = Vec::new();
        core::mem::swap(&mut self.packets, &mut out);
        out
    }

    /// Renders the first `n` stored packets for logs, without removing
    /// them; no semantic role.
    pub fn show(&self, n: usize) -> (r: Vec<String>)
        ensures
            r@.len() == if n <= self@.len() {
                n as int
            } else {
                self@.len() as int
            },
    {
        let count: usize = if self.packets.len() < n {
            self.packets.len()
        } else {
            n
        };
        let mut out: Vec<String> = Vec::new();
        let mut i: usize = 0;
        while i < count
            invariant
                i <= count,
                count <= self.packets.len(),
                out@.len() == i,
            decreases count - i,
        {
            out.push(self.packets[i].show());
            i = i + 1;
        }
        out
    }
}

/// Backpressure is transient: a buffer at capacity refuses a push, but
/// as soon as one packet is popped from its head, the buffer is no
/// longer full, so the next push is accepted.
pub proof fn lemma_pop_front_makes_room(b: UartTrceBuffer, b2: UartTrceBuffer)
    requires
        b.wf(),
        b.spec_is_full(),
        b.max_spec() > 0,
        b2.max_spec() == b.max_spec(),
        b2@ == b@.drop_first(),
    ensures
        !b2.spec_is_full(),
{
}

/// The big-endian 16-bit value stored at offset `i` of a byte sequence.
pub open spec fn be_u16_at(d: Seq<u8>, i: int) -> u16 {
    ((d[i] as int) * 0x100 + (d[i + 1] as int)) as u16
}

/// The big-endian 32-bit value stored at offset `i` of a byte sequence.
pub open spec fn be_u32_at(d: Seq<u8>, i: int) -> u32 {
    ((d[i] as int) * 0x1000000 + (d[i + 1] as int) * 0x10000 + (d[i + 2] as int) * 0x100 + (d[i
        + 3] as int)) as u32
}

/// The telemetry store after decoding one frame payload (class byte
/// already stripped): prefixes from the command table are matched in
/// order, each followed by its fixed-width big-endian value — four bytes
/// reinterpreted as an IEEE-754 bit pattern for speed, two bytes for an
/// ADC reading. A prefix with too few value bytes aborts the remainder;
/// an unknown prefix stops the decoding silently.
pub open spec fn spec_data_store(m: StoreModel, d: Seq<u8>, max: nat) -> StoreModel
    decreases d.len(),
{
    if d.len() >= 2 && d[0] == CMD_CODE_MOTOR_LEFT && d[1] == CMD_CODE_SPEED {
        if d.len() >= 6 {
            spec_data_store(
                spec_store_push(
                    m,
                    DataType::MotorLeft(MotorDataType::SpeedPresent),
                    be_u32_at(d, 2) as u64,
                    max,
                ),
                d.skip(6),
                max,
            )
        } else {
            m
        }
    } else if d.len() >= 2 && d[0] == CMD_CODE_MOTOR_RIGHT && d[1] == CMD_CODE_SPEED {
        if d.len() >= 6 {
            spec_data_store(
                spec_store_push(
                    m,
                    DataType::MotorRight(MotorDataType::SpeedPresent),
                    be_u32_at(d, 2) as u64,
                    max,
                ),
                d.skip(6),
                max,
            )
        } else {
            m
        }
    } else if d.len() >= 2 && d[0] == CMD_CODE_MOTOR_LEFT && d[1] == CMD_CODE_ADC {
        if d.len() >= 4 {
            spec_data_store(
                spec_store_push(
                    m,
                    DataType::MotorLeft(MotorDataType::AdcValue),
                    be_u16_at(d, 2) as u64,
                    max,
                ),
                d.skip(4),
                max,
            )
        } else {
            m
        }
    } else if d.len() >= 2 && d[0] == CMD_CODE_MOTOR_RIGHT && d[1] == CMD_CODE_ADC {
        if d.len() >= 4 {
            spec_data_store(
                spec_store_push(
                    m,
                    DataType::MotorRight(MotorDataType::AdcValue),
                    be_u16_at(d, 2) as u64,
                    max,
                ),
                d.skip(4),
                max,
            )
        } else {
            m
        }
    } else {
        m
    }
}

/// Reads the big-endian 32-bit value at offset `i`.
fn read_be_u32(data: &Vec<u8>, i: usize) -> (r: u32)
    requires
        i + 4 <= data@.len(),
    ensures
        r == be_u32_at(data@, i as int),
{
    let n = data.len();
    proof {
        assert(i + 4 <= n);
    }
    (data[i] as u32) * 0x1000000 + (data[i + 1] as u32) * 0x10000 + (data[i + 2] as u32) * 0x100
        + (data[i + 3] as u32)
}

/// Reads the big-endian 16-bit value at offset `i`.
fn read_be_u16(data: &Vec<u8>, i: usize) -> (r: u16)
    requires
        i + 2 <= data@.len(),
    ensures
        r == be_u16_at(data@, i as int),
{
    let n = data.len();
    proof {
        assert(i + 2 <= n);
    }
    (data[i] as u16) * 0x100 + (data[i + 1] as u16)
}

/// Decodes one frame payload (class byte already stripped) into the
/// telemetry store, exactly as `spec_data_store` states: values decoded
/// before a short or unknown remainder are kept, and the function never
/// fails or blocks.
pub fn re_pkt_data_store(store: &mut DataStore, data: &Vec<u8>)
    requires
        old(store).wf(),
    ensures
        final(store).wf(),
        final(store).max_spec() == old(store).max_spec(),
        final(store).model() == spec_data_store(
            old(store).model(),
            data@,
            old(store).max_spec(),
        ),
{
    let ghost max = old(store).max_spec();
    let ghost d = data@;
    proof {
        assert(d.skip(0) =~= d);
    }
    let mut i: usize = 0;
    loop
        invariant
            i <= data@.len(),
            data@ == d,
            store.wf(),
            store.max_spec() == max,
            spec_data_store(old(store).model(), d, max) == spec_data_store(
                store.model(),
                d.skip(i as int),
                max,
            ),
        ensures
            store.wf(),
            store.max_spec() == max,
            data@ == d,
            store.model() == spec_data_store(old(store).model(), d, max),
        decreases data@.len() - i,
    {
        let ghost suf = d.skip(i as int);
        if data.len() - i >= 2 && data[i] == CMD_CODE_MOTOR_LEFT && data[i + 1] == CMD_CODE_SPEED {
            if data.len() - i >= 6 {
                let v = read_be_u32(data, i + 2);
                proof {
                    assert(suf.len() >= 6);
                    assert(suf[0] == d[i as int] && suf[1] == d[i as int + 1]);
                    assert(be_u32_at(suf, 2) == v);
                }
                store.push(DataType::MotorLeft(MotorDataType::SpeedPresent), v as u64);
                proof {
                    assert(d.skip(i as int).skip(6) =~= d.skip(i as int + 6));
                }
                i = i + 6;
            } else {
                proof {
                    assert(suf.len() < 6);
                    assert(spec_data_store(store.model(), suf, max) == store.model());
                }
                break ;
            }
        } else if data.len() - i >= 2 && data[i] == CMD_CODE_MOTOR_RIGHT && data[i + 1]
            == CMD_CODE_SPEED {
            if data.len() - i >= 6 {
                let v = read_be_u32(data, i + 2);
                proof {
                    assert(suf.len() >= 6);
                    assert(suf[0] == d[i as int] && suf[1] == d[i as int + 1]);
                    assert(be_u32_at(suf, 2) == v);
                }
                store.push(DataType::MotorRight(MotorDataType::SpeedPresent), v as u64);
                proof {
                    assert(d.skip(i as int).skip(6) =~= d.skip(i as int + 6));
                }
                i = i + 6;
            } else {
                proof {
                    assert(spec_data_store(store.model(), suf, max) == store.model());
                }
                break ;
            }
        } else if data.len() - i >= 2 && data[i] == CMD_CODE_MOTOR_LEFT && data[i + 1]
            == CMD_CODE_ADC {
            if data.len() - i >= 4 {
                let v = read_be_u16(data, i + 2);
                proof {
                    assert(suf.len() >= 4);
                    assert(suf[0] == d[i as int] && suf[1] == d[i as int + 1]);
                    assert(be_u16_at(suf, 2) == v);
                }
                store.push(DataType::MotorLeft(MotorDataType::AdcValue), v as u64);
                proof {
                    assert(d.skip(i as int).skip(4) =~= d.skip(i as int + 4));
                }
                i = i + 4;
            } else {
                proof {
                    assert(spec_data_store(store.model(), suf, max) == store.model());
                }
                break ;
            }
        } else if data.len() - i >= 2 && data[i] == CMD_CODE_MOTOR_RIGHT && data[i + 1]
            == CMD_CODE_ADC {
            if data.len() - i >= 4 {
                let v = read_be_u16(data, i + 2);
                proof {
                    assert(suf.len() >= 4);
                    assert(suf[0] == d[i as int] && suf[1] == d[i as int + 1]);
                    assert(be_u16_at(suf, 2) == v);
                }
                store.push(DataType::MotorRight(MotorDataType::AdcValue), v as u64);
                proof {
                    assert(d.skip(i as int).skip(4) =~= d.skip(i as int + 4));
                }
                i = i + 4;
            } else {
                proof {
                    assert(spec_data_store(store.model(), suf, max) == store.model());
                }
                break ;
            }
        } else {
            proof {
                assert(spec_data_store(store.model(), suf, max) == store.model());
            }
            break ;
        }
    }
}

/// The telemetry store and the receive buffer after one dispatcher run:
/// up to `fuel` packets are popped from the head; a packet whose first
/// payload byte is the data-transfer class has its remaining payload
/// decoded into the store, and any other packet (vehicle control,
/// unknown, or empty) ends the run after being popped.
pub open spec fn spec_process_queue(
    m: StoreModel,
    q: Seq<UartPacket>,
    fuel: nat,
    max: nat,
) -> (StoreModel, Seq<UartPacket>)
    decreases fuel,
{
    if fuel == 0 || q.len() == 0 {
        (m, q)
    } else {
        let p = q[0];
        if p@.len() > 0 && p@[0] == CMD_CODE_DATA_TRRE {
            spec_process_queue(
                spec_data_store(m, p@.drop_first(), max),
                q.drop_first(),
                (fuel - 1) as nat,
                max,
            )
        } else {
            (m, q.drop_first())
        }
    }
}

/// Processes up to ten packets from the receive buffer, dispatching
/// telemetry payloads into the store, exactly as `spec_process_queue`
/// states; an empty buffer or a non-telemetry packet ends the run.
pub fn re_pkt_proccess(recv: &mut UartTrceBuffer, store: &mut DataStore)
    requires
        old(recv).wf(),
        old(store).wf(),
    ensures
        final(recv).wf(),
        final(store).wf(),
        final(recv).max_spec() == old(recv).max_spec(),
        final(store).max_spec() == old(store).max_spec(),
        (final(store).model(), final(recv)@) == spec_process_queue(
            old(store).model(),
            old(recv)@,
            10,
            old(store).max_spec(),
        ),
{
    let ghost max = old(store).max_spec();
    let mut k: usize = 0;
    loop
        invariant_except_break
            spec_process_queue(old(store).model(), old(recv)@, 10, max) == spec_process_queue(
                store.model(),
                recv@,
                (10 - k) as nat,
                max,
            ),
        invariant
            k <= 10,
            recv.wf(),
            store.wf(),
            recv.max_spec() == old(recv).max_spec(),
            store.max_spec() == max,
        ensures
            recv.wf(),
            store.wf(),
            recv.max_spec() == old(recv).max_spec(),
            store.max_spec() == max,
            (store.model(), recv@) == spec_process_queue(
                old(store).model(),
                old(recv)@,
                10,
                max,
            ),
        decreases 10 - k,
    {
        if k >= 10 {
            break ;
        }
        let ghost q0 = recv@;
        let ghost m0 = store.model();
        let maybe_pkt = recv.pop_front();
        match maybe_pkt {
            Err(_) => {
                break ;
            },
            Ok(p) => {
                let mut payload = p.data();
                if payload.len() > 0 && payload[0] == CMD_CODE_DATA_TRRE {
                    let _class = payload.remove(0);
                    proof {
                        assert(payload@ =~= p@.drop_first());
                    }
                    re_pkt_data_store(store, &payload);
                    k = k + 1;
                } else {
                    proof {
                        assert(spec_process_queue(m0, q0, (10 - (k as int)) as nat, max) == (
                            m0,
                            q0.drop_first(),
                        ));
                    }
                    break ;
                }
            },
        }
    }
}

} // verus!
