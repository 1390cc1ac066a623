//! Bounded telemetry history channels: one fixed-capacity sequence per
//! (motor side, quantity) pair, evicting the oldest value on overflow.
//!
//! Motor speed telemetry arrives as the bit pattern of an IEEE-754
//! single-precision value; the store keeps that 32-bit pattern as an
//! integer, and presentation layers reinterpret it as they see fit.

use vstd::prelude::*;

verus! {

/// The contents of a bounded history channel after pushing one value:
/// the newest value enters at the tail, and the oldest leaves whenever
/// the capacity `max` would be exceeded.
pub open spec fn window_push<T>(s: Seq<T>, v: T, max: nat) -> Seq<T> {
    if max == 0 {
        Seq::<T>::empty()
    } else if s.len() < max {
        s.push(v)
    } else {
        s.skip(s.len() - (max - 1)).push(v)
    }
}

/// The contents of a bounded history channel after pushing each value of
/// `vs` in order.
pub open spec fn window_push_all<T>(s: Seq<T>, vs: Seq<T>, max: nat) -> Seq<T>
    decreases vs.len(),
{
    if vs.len() == 0 {
        s
    } else {
        window_push_all(window_push(s, vs[0], max), vs.drop_first(), max)
    }
}

/// The at most `max` newest entries of a sequence, in order.
pub open spec fn recent<T>(s: Seq<T>, max: nat) -> Seq<T> {
    if s.len() <= max {
        s
    } else {
        s.skip(s.len() - max)
    }
}

/// Taking the newest `max` entries twice, with an interruption, is the
/// same as taking them once at the end.
proof fn lemma_recent_absorb<T>(a: Seq<T>, b: Seq<T>, max: nat)
    ensures
        recent(recent(a, max) + b, max) == recent(a + b, max),
{
    if a.len() <= max {
        assert(recent(a, max) + b =~= a + b);
    } else {
        assert(recent(recent(a, max) + b, max) =~= recent(a + b, max));
    }
}

/// Closed form of repeated bounded pushes: the channel holds the newest
/// `max` entries of the prior contents followed by everything pushed.
proof fn lemma_window_push_all_closed_form<T>(s: Seq<T>, vs: Seq<T>, max: nat)
    requires
        s.len() <= max,
    ensures
        window_push_all(s, vs, max) == recent(s + vs, max),
    decreases vs.len(),
{
    if vs.len() == 0 {
        assert(s + vs =~= s);
    } else {
        let v = vs[0];
        let rest = vs.drop_first();
        assert(window_push(s, v, max) == recent(s.push(v), max)) by {
            if max == 0 {
                assert(recent(s.push(v), max) =~= Seq::<T>::empty());
            } else if s.len() >= max {
                assert(s.skip(s.len() - (max - 1)).push(v) =~= recent(s.push(v), max));
            }
        }
        assert(recent(s.push(v), max).len() <= max);
        lemma_window_push_all_closed_form(window_push(s, v, max), rest, max);
        lemma_recent_absorb(s.push(v), rest, max);
        assert(s.push(v) + rest =~= s + vs);
    }
}

/// A history channel with capacity `max` retains exactly the `max` most
/// recently pushed values, in arrival order, once at least `max` values
/// have been pushed into it.
pub proof fn lemma_history_retains_recent<T>(s: Seq<T>, vs: Seq<T>, max: nat)
    requires
        s.len() <= max,
        vs.len() >= max,
    ensures
        window_push_all(s, vs, max) == vs.skip(vs.len() - max),
{
    lemma_window_push_all_closed_form(s, vs, max);
    assert(recent(s + vs, max) =~= vs.skip(vs.len() - max));
}

/// The quantities tracked per motor side.
#[derive(Clone, Copy, Debug, PartialEq, Eq, Structural)]
pub enum MotorDataType {
    AdcValue,
    SpeedSetpoint,
    SpeedPresent,
    RotateDirection,
}

/// One telemetry channel of the whole store.
#[derive(Clone, Copy, Debug, PartialEq, Eq, Structural)]
pub enum DataType {
    MotorLeft(MotorDataType),
    MotorRight(MotorDataType),
    VehicelPos,
}

/// A copy of one channel's stored values, typed by quantity. Speed
/// entries are IEEE-754 single-precision bit patterns.
#[derive(Debug)]
pub enum DataSlice {
    U8(Vec<u8>),
    U16(Vec<u16>),
    U32(Vec<u32>),
}

/// Mathematical contents of one motor's history channels.
#[verifier::ext_equal]
pub struct MotorHistModel {
    pub adc: Seq<u16>,
    pub setp: Seq<u8>,
    pub speed: Seq<u32>,
    pub rot: Seq<u8>,
}

/// One motor's history: after pushing `value` into the channel `kind`.
pub open spec fn spec_motor_push(
    m: MotorHistModel,
    kind: MotorDataType,
    value: u64,
    max: nat,
) -> MotorHistModel {
    match kind {
        MotorDataType::AdcValue => MotorHistModel {
            adc: window_push(m.adc, value as u16, max),
            ..m
        },
        MotorDataType::SpeedSetpoint => MotorHistModel {
            setp: window_push(m.setp, value as u8, max),
            ..m
        },
        MotorDataType::SpeedPresent => MotorHistModel {
            speed: window_push(m.speed, value as u32, max),
            ..m
        },
        MotorDataType::RotateDirection => MotorHistModel {
            rot: window_push(m.rot, value as u8, max),
            ..m
        },
    }
}

/// Copies a vector of plain values.
fn copy_vec<T: Copy>(v: &Vec<T>) -> (r: Vec<T>)
    ensures
        r@ == v@,
{
    let mut out: Vec<T> = Vec::new();
    let mut i: usize = 0;
    while i < v.len()
        invariant
            i <= v.len(),
            out@ == v@.subrange(0, i as int),
        decreases v.len() - i,
    {
        out.push(v[i]);
        i = i + 1;
        proof {
            assert(out@ =~= v@.subrange(0, i as int));
        }
    }
    proof {
        assert(out@ =~= v@);
    }
    out
}

/// Copies the at most `n` newest entries of a vector, in order.
fn tail_vec<T: Copy>(v: &Vec<T>, n: usize) -> (r: Vec<T>)
    ensures
        r@ == recent(v@, n as nat),
{
    let start: usize = if v.len() <= n {
        0
    } else {
        v.len() - n
    };
    let mut out: Vec<T> = Vec::new();
    let mut i: usize = start;
    while i < v.len()
        invariant
            start <= i <= v.len(),
            out@ == v@.subrange(start as int, i as int),
        decreases v.len() - i,
    {
        out.push(v[i]);
        i = i + 1;
        proof {
            assert(out@ =~= v@.subrange(start as int, i as int));
        }
    }
    proof {
        assert(out@ =~= recent(v@, n as nat));
    }
    out
}

/// Bounded history channels for one motor side.
pub struct MotorDataStore {
    max_length: usize,
    adc_value: Vec<u16>,
    speed_setpoint: Vec<u8>,
    speed_present: Vec<u32>,
    rotate_direction: Vec<u8>,
}

impl MotorDataStore {
    /// The capacity shared by this motor's channels.
    pub closed spec fn max_spec(&self) -> nat {
        self.max_length as nat
    }

    /// Mathematical contents of the four channels.
    pub closed spec fn model(&self) -> MotorHistModel {
        MotorHistModel {
            adc: self.adc_value@,
            setp: self.speed_setpoint@,
            speed: self.speed_present@,
            rot: self.rotate_direction@,
        }
    }

    /// No channel exceeds the capacity.
    pub open spec fn wf(&self) -> bool {
        &&& self.model().adc.len() <= self.max_spec()
        &&& self.model().setp.len() <= self.max_spec()
        &&& self.model().speed.len() <= self.max_spec()
        &&& self.model().rot.len() <= self.max_spec()
    }

    /// Creates empty channels with the given capacity.
    pub fn new(max_length: usize) -> (r: Self)
        ensures
            r.wf(),
            r.max_spec() == max_length,
            r.model() == (MotorHistModel {
                adc: Seq::<u16>::empty(),
                setp: Seq::<u8>::empty(),
                speed: Seq::<u32>::empty(),
                rot: Seq::<u8>::empty(),
            }),
    {
        Self {
            max_length,
            adc_value: Vec::new(),
            speed_setpoint: Vec::new(),
            speed_present: Vec::new(),
            rotate_direction: Vec::new(),
        }
    }

    /// Pushes one value into the channel `kind`, truncating the value to
    /// the channel's width and evicting the oldest entry if the channel
    /// is at capacity.
    pub fn push(&mut self, kind: MotorDataType, value: u64)
        requires
            old(self).wf(),
        ensures
            final(self).wf(),
            final(self).max_spec() == old(self).max_spec(),
            final(self).model() == spec_motor_push(
                old(self).model(),
                kind,
                value,
                old(self).max_spec(),
            ),
    {
        match kind {
            MotorDataType::AdcValue => {
                let v = value as u16;
                if self.max_length == 0 {
                    self.adc_value.clear();
                } else {
                    if self.adc_value.len() >= self.max_length {
                        self.adc_value.remove(0);
                        proof {
                            assert(self.adc_value@ =~= old(self).model().adc.skip(
                                old(self).model().adc.len() - (old(self).max_spec() - 1),
                            ));
                        }
                    }
                    self.adc_value.push(v);
                }
                proof {
                    assert(self.model() =~~= spec_motor_push(
                        old(self).model(),
                        kind,
                        value,
                        old(self).max_spec(),
                    ));
                }
            },
            MotorDataType::SpeedSetpoint => {
                let v = value as u8;
                if self.max_length == 0 {
                    self.speed_setpoint.clear();
                } else {
                    if self.speed_setpoint.len() >= self.max_length {
                        self.speed_setpoint.remove(0);
                        proof {
                            assert(self.speed_setpoint@ =~= old(self).model().setp.skip(
                                old(self).model().setp.len() - (old(self).max_spec() - 1),
                            ));
                        }
                    }
                    self.speed_setpoint.push(v);
                }
                proof {
                    assert(self.model() =~~= spec_motor_push(
                        old(self).model(),
                        kind,
                        value,
                        old(self).max_spec(),
                    ));
                }
            },
            MotorDataType::SpeedPresent => {
                let v = value as u32;
                if self.max_length == 0 {
                    self.speed_present.clear();
                } else {
                    if self.speed_present.len() >= self.max_length {
                        self.speed_present.remove(0);
                        proof {
                            assert(self.speed_present@ =~= old(self).model().speed.skip(
                                old(self).model().speed.len() - (old(self).max_spec() - 1),
                            ));
                        }
                    }
                    self.speed_present.push(v);
                }
                proof {
                    assert(self.model() =~~= spec_motor_push(
                        old(self).model(),
                        kind,
                        value,
                        old(self).max_spec(),
                    ));
                }
            },
            MotorDataType::RotateDirection => {
                let v = value as u8;
                if self.max_length == 0 {
                    self.rotate_direction.clear();
                } else {
                    if self.rotate_direction.len() >= self.max_length {
                        self.rotate_direction.remove(0);
                        proof {
                            assert(self.rotate_direction@ =~= old(self).model().rot.skip(
                                old(self).model().rot.len() - (old(self).max_spec() - 1),
                            ));
                        }
                    }
                    self.rotate_direction.push(v);
                }
                proof {
                    assert(self.model() =~~= spec_motor_push(
                        old(self).model(),
                        kind,
                        value,
                        old(self).max_spec(),
                    ));
                }
            },
        }
    }

    /// Returns a copy of the channel `kind`.
    pub fn get(&self, kind: MotorDataType) -> (r: DataSlice)
        ensures
            kind == MotorDataType::AdcValue ==> (r matches DataSlice::U16(v) && v@
                == self.model().adc),
            kind == MotorDataType::SpeedSetpoint ==> (r matches DataSlice::U8(v) && v@
                == self.model().setp),
            kind == MotorDataType::SpeedPresent ==> (r matches DataSlice::U32(v) && v@
                == self.model().speed),
            kind == MotorDataType::RotateDirection ==> (r matches DataSlice::U8(v) && v@
                == self.model().rot),
    {
        match kind {
            MotorDataType::AdcValue => DataSlice::U16(copy_vec(&self.adc_value)),
            MotorDataType::SpeedSetpoint => DataSlice::U8(copy_vec(&self.speed_setpoint)),
            MotorDataType::SpeedPresent => DataSlice::U32(copy_vec(&self.speed_present)),
            MotorDataType::RotateDirection => DataSlice::U8(copy_vec(&self.rotate_direction)),
        }
    }

    /// Returns a copy of the at most `n` newest entries of the channel
    /// `kind`, in arrival order.
    pub fn read_recent(&self, kind: MotorDataType, n: usize) -> (r: DataSlice)
        ensures
            kind == MotorDataType::AdcValue ==> (r matches DataSlice::U16(v) && v@ == recent(
                self.model().adc,
                n as nat,
            )),
            kind == MotorDataType::SpeedSetpoint ==> (r matches DataSlice::U8(v) && v@ == recent(
                self.model().setp,
                n as nat,
            )),
            kind == MotorDataType::SpeedPresent ==> (r matches DataSlice::U32(v) && v@ == recent(
                self.model().speed,
                n as nat,
            )),
            kind == MotorDataType::RotateDirection ==> (r matches DataSlice::U8(v) && v@
                == recent(self.model().rot, n as nat)),
    {
        match kind {
            MotorDataType::AdcValue => DataSlice::U16(tail_vec(&self.adc_value, n)),
            MotorDataType::SpeedSetpoint => DataSlice::U8(tail_vec(&self.speed_setpoint, n)),
            MotorDataType::SpeedPresent => DataSlice::U32(tail_vec(&self.speed_present, n)),
            MotorDataType::RotateDirection => DataSlice::U8(tail_vec(&self.rotate_direction, n)),
        }
    }

    /// Empties the channel `kind`; the others are kept.
    pub fn clear(&mut self, kind: MotorDataType)
        ensures
            old(self).wf() ==> final(self).wf(),
            final(self).max_spec() == old(self).max_spec(),
            kind == MotorDataType::AdcValue ==> final(self).model() == (MotorHistModel {
                adc: Seq::<u16>::empty(),
                ..old(self).model()
            }),
            kind == MotorDataType::SpeedSetpoint ==> final(self).model() == (MotorHistModel {
                setp: Seq::<u8>::empty(),
                ..old(self).model()
            }),
            kind == MotorDataType::SpeedPresent ==> final(self).model() == (MotorHistModel {
                speed: Seq::<u32>::empty(),
                ..old(self).model()
            }),
            kind == MotorDataType::RotateDirection ==> final(self).model() == (MotorHistModel {
                rot: Seq::<u8>::empty(),
                ..old(self).model()
            }),
    {
        match kind {
            MotorDataType::AdcValue => self.adc_value.clear(),
            MotorDataType::SpeedSetpoint => self.speed_setpoint.clear(),
            MotorDataType::SpeedPresent => self.speed_present.clear(),
            MotorDataType::RotateDirection => self.rotate_direction.clear(),
        }
    }
}

/// Mathematical contents of the whole telemetry store.
#[verifier::ext_equal]
pub struct StoreModel {
    pub left: MotorHistModel,
    pub right: MotorHistModel,
    pub pos: Seq<u16>,
}

/// The whole store after pushing `value` into the channel `dt`.
pub open spec fn spec_store_push(m: StoreModel, dt: DataType, value: u64, max: nat) -> StoreModel {
    match dt {
        DataType::MotorLeft(kind) => StoreModel {
            left: spec_motor_push(m.left, kind, value, max),
            ..m
        },
        DataType::MotorRight(kind) => StoreModel {
            right: spec_motor_push(m.right, kind, value, max),
            ..m
        },
        DataType::VehicelPos => StoreModel { pos: m.pos.push(value as u16), ..m },
    }
}

/// Telemetry history for both motor sides plus the vehicle position
/// trace.
pub struct DataStore {
    motor_left: MotorDataStore,
    motor_right: MotorDataStore,
    vehicel_pos: Vec<u16>,
}

impl DataStore {
    /// The capacity shared by the motor history channels.
    pub closed spec fn max_spec(&self) -> nat {
        self.motor_left.max_spec()
    }

    /// Mathematical contents of every channel.
    pub closed spec fn model(&self) -> StoreModel {
        StoreModel {
            left: self.motor_left.model(),
            right: self.motor_right.model(),
            pos: self.vehicel_pos@,
        }
    }

    /// Both motor stores share the capacity and respect it.
    pub open spec fn wf(&self) -> bool {
        &&& self.motor_left_wf()
        &&& self.motor_right_wf()
        &&& self.sides_share_max()
    }

    /// The left motor store respects its capacity.
    pub closed spec fn motor_left_wf(&self) -> bool {
        self.motor_left.wf()
    }

    /// The right motor store respects its capacity.
    pub closed spec fn motor_right_wf(&self) -> bool {
        self.motor_right.wf()
    }

    /// Both sides were built with the same capacity.
    pub closed spec fn sides_share_max(&self) -> bool {
        self.motor_right.max_spec() == self.motor_left.max_spec()
    }

    /// Creates an empty store whose motor channels hold at most
    /// `max_length` entries each.
    pub fn new(max_length: usize) -> (r: Self)
        ensures
            r.wf(),
            r.max_spec() == max_length,
            r.model() == (StoreModel {
                left: MotorHistModel {
                    adc: Seq::<u16>::empty(),
                    setp: Seq::<u8>::empty(),
                    speed: Seq::<u32>::empty(),
                    rot: Seq::<u8>::empty(),
                },
                right: MotorHistModel {
                    adc: Seq::<u16>::empty(),
                    setp: Seq::<u8>::empty(),
                    speed: Seq::<u32>::empty(),
                    rot: Seq::<u8>::empty(),
                },
                pos: Seq::<u16>::empty(),
            }),
    {
        Self {
            motor_left: MotorDataStore::new(max_length),
            motor_right: MotorDataStore::new(max_length),
            vehicel_pos: Vec::new(),
        }
    }

    /// Pushes one value into the channel `dt`.
    pub fn push(&mut self, dt: DataType, value: u64)
        requires
            old(self).wf(),
        ensures
            final(self).wf(),
            final(self).max_spec() == old(self).max_spec(),
            final(self).model() == spec_store_push(
                old(self).model(),
                dt,
                value,
                old(self).max_spec(),
            ),
    {
        match dt {
            DataType::MotorLeft(kind) => {
                self.motor_left.push(kind, value);
            },
            DataType::MotorRight(kind) => {
                self.motor_right.push(kind, value);
            },
            DataType::VehicelPos => {
                let v = value as u16;
                self.vehicel_pos.push(v);
            },
        }
        proof {
            assert(self.model() =~~= spec_store_push(
                old(self).model(),
                dt,
                value,
                old(self).max_spec(),
            ));
        }
    }

    /// The channel `dt` of the store model, widened to 64-bit entries so
    /// that every channel can be compared under one type.
    pub open spec fn channel(&self, dt: DataType) -> Seq<u64> {
        match dt {
            DataType::MotorLeft(kind) => match kind {
                MotorDataType::AdcValue => self.model().left.adc.map_values(|x: u16| x as u64),
                MotorDataType::SpeedSetpoint => self.model().left.setp.map_values(
                    |x: u8| x as u64,
                ),
                MotorDataType::SpeedPresent => self.model().left.speed.map_values(
                    |x: u32| x as u64,
                ),
                MotorDataType::RotateDirection => self.model().left.rot.map_values(
                    |x: u8| x as u64,
                ),
            },
            DataType::MotorRight(kind) => match kind {
                MotorDataType::AdcValue => self.model().right.adc.map_values(|x: u16| x as u64),
                MotorDataType::SpeedSetpoint => self.model().right.setp.map_values(
                    |x: u8| x as u64,
                ),
                MotorDataType::SpeedPresent => self.model().right.speed.map_values(
                    |x: u32| x as u64,
                ),
                MotorDataType::RotateDirection => self.model().right.rot.map_values(
                    |x: u8| x as u64,
                ),
            },
            DataType::VehicelPos => self.model().pos.map_values(|x: u16| x as u64),
        }
    }

    /// The stored values a `DataSlice` carries, widened to 64 bits.
    pub open spec fn slice_values(r: DataSlice) -> Seq<u64> {
        match r {
            DataSlice::U8(v) => v@.map_values(|x: u8| x as u64),
            DataSlice::U16(v) => v@.map_values(|x: u16| x as u64),
            DataSlice::U32(v) => v@.map_values(|x: u32| x as u64),
        }
    }

    /// Returns a copy of the channel `dt`.
    pub fn get(&self, dt: DataType) -> (r: DataSlice)
        ensures
            Self::slice_values(r) == self.channel(dt),
    {
        let r = match dt {
            DataType::MotorLeft(kind) => self.motor_left.get(kind),
            DataType::MotorRight(kind) => self.motor_right.get(kind),
            DataType::VehicelPos => DataSlice::U16(copy_vec(&self.vehicel_pos)),
        };
        proof {
            assert(Self::slice_values(r) =~= self.channel(dt));
        }
        r
    }

    /// Returns a copy of the at most `n` newest entries of the channel
    /// `dt`, in arrival order.
    pub fn read_recent(&self, dt: DataType, n: usize) -> (r: DataSlice)
        ensures
            Self::slice_values(r) == recent(self.channel(dt), n as nat),
    {
        let r = match dt {
            DataType::MotorLeft(kind) => self.motor_left.read_recent(kind, n),
            DataType::MotorRight(kind) => self.motor_right.read_recent(kind, n),
            DataType::VehicelPos => DataSlice::U16(tail_vec(&self.vehicel_pos, n)),
        };
        proof {
            assert(Self::slice_values(r) =~= recent(self.channel(dt), n as nat));
        }
        r
    }

    /// Empties the channel `dt`; the others are kept.
    pub fn clear(&mut self, dt: DataType)
        ensures
            old(self).wf() ==> final(self).wf(),
            final(self).max_spec() == old(self).max_spec(),
            final(self).channel(dt) == Seq::<u64>::empty(),
            forall|other: DataType| other != dt ==> final(self).channel(other) == old(
                self,
            ).channel(other),
    {
        match dt {
            DataType::MotorLeft(kind) => self.motor_left.clear(kind),
            DataType::MotorRight(kind) => self.motor_right.clear(kind),
            DataType::VehicelPos => self.vehicel_pos.clear(),
        }
    }
}

} // verus!
