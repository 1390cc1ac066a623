use mcu_link::mcu_store::{DataSlice, DataStore, DataType, MotorDataStore, MotorDataType};
use mcu_link::transport::{read_step, ReadAction, ReadEvent};
use mcu_link::uart_packet_proc::{re_pkt_data_store, re_pkt_proccess, UartTrceBuffer};

fn adc_values(slice: DataSlice) -> Vec<u16> {
    match slice {
        DataSlice::U16(v) => v,
        _ => panic!("expected a u16 channel"),
    }
}

fn speed_bits(slice: DataSlice) -> Vec<u32> {
    match slice {
        DataSlice::U32(v) => v,
        _ => panic!("expected a u32 channel"),
    }
}

/// Runs the reader state machine over one raw byte stream followed by a
/// timeout, and returns the delivered packets.
fn feed_reader(raw: &[u8]) -> Vec<mcu_link::uart_packet::UartPacket> {
    let mut frame: Vec<u8> = Vec::new();
    let mut delivered = Vec::new();
    for &b in raw {
        match read_step(&mut frame, ReadEvent::ByteRead(b)) {
            ReadAction::KeepReading => {}
            ReadAction::DeliverFrame(p) => delivered.push(p),
            other => panic!("unexpected action while feeding bytes: {:?}", other),
        }
    }
    match read_step(&mut frame, ReadEvent::TimedOut) {
        ReadAction::DeliverFrame(p) => delivered.push(p),
        ReadAction::Idle => {}
        other => panic!("unexpected action at timeout: {:?}", other),
    }
    delivered
}

#[test]
fn history_channel_keeps_most_recent_values() {
    // A channel with max_length 3 retains exactly the 3 most recently
    // pushed values in arrival order.
    let mut store = MotorDataStore::new(3);
    for v in [1u64, 2, 3, 4, 5] {
        store.push(MotorDataType::AdcValue, v);
    }
    assert_eq!(adc_values(store.get(MotorDataType::AdcValue)), vec![3, 4, 5]);
    store.push(MotorDataType::AdcValue, 6);
    assert_eq!(adc_values(store.get(MotorDataType::AdcValue)), vec![4, 5, 6]);
}

#[test]
fn history_channels_are_independent() {
    let mut store = DataStore::new(2);
    store.push(DataType::MotorLeft(MotorDataType::AdcValue), 7);
    store.push(DataType::MotorRight(MotorDataType::AdcValue), 8);
    assert_eq!(
        adc_values(store.get(DataType::MotorLeft(MotorDataType::AdcValue))),
        vec![7]
    );
    assert_eq!(
        adc_values(store.get(DataType::MotorRight(MotorDataType::AdcValue))),
        vec![8]
    );
    store.clear(DataType::MotorLeft(MotorDataType::AdcValue));
    assert!(adc_values(store.get(DataType::MotorLeft(MotorDataType::AdcValue))).is_empty());
    assert_eq!(
        adc_values(store.get(DataType::MotorRight(MotorDataType::AdcValue))),
        vec![8]
    );
}

#[test]
fn read_recent_returns_newest_in_order() {
    let mut store = DataStore::new(10);
    for v in [1u64, 2, 3, 4] {
        store.push(DataType::MotorRight(MotorDataType::AdcValue), v);
    }
    assert_eq!(
        adc_values(store.read_recent(DataType::MotorRight(MotorDataType::AdcValue), 2)),
        vec![3, 4]
    );
    assert_eq!(
        adc_values(store.read_recent(DataType::MotorRight(MotorDataType::AdcValue), 99)),
        vec![1, 2, 3, 4]
    );
}

#[test]
fn reader_delivers_speed_telemetry() {
    // Raw bytes: '{' + [0x10, 0x01, 0x00] + big-endian bits of 3.5f32 + '}'
    // leave 3.5 as the newest right-speed value.
    let mut raw = vec![b'{', 0x10, 0x01, 0x00];
    raw.extend_from_slice(&3.5f32.to_bits().to_be_bytes());
    raw.push(b'}');

    let delivered = feed_reader(&raw);
    assert_eq!(delivered.len(), 1);

    let mut recv = UartTrceBuffer::new(10);
    let mut store = DataStore::new(100);
    for p in delivered {
        recv.push(p).unwrap();
    }
    re_pkt_proccess(&mut recv, &mut store);
    assert!(recv.is_empty());

    let bits = speed_bits(store.get(DataType::MotorRight(MotorDataType::SpeedPresent)));
    assert_eq!(bits.len(), 1);
    assert_eq!(f32::from_bits(bits[0]), 3.5);
}

#[test]
fn reader_delivers_adc_telemetry() {
    // Raw bytes: '{' + [0x10, 0x01, 0x05] + [0x00, 0x2A] + '}' leave 42
    // as the newest right-ADC value.
    let raw = vec![b'{', 0x10, 0x01, 0x05, 0x00, 0x2A, b'}'];

    let delivered = feed_reader(&raw);
    assert_eq!(delivered.len(), 1);

    let mut recv = UartTrceBuffer::new(10);
    let mut store = DataStore::new(100);
    for p in delivered {
        recv.push(p).unwrap();
    }
    re_pkt_proccess(&mut recv, &mut store);

    let values = adc_values(store.get(DataType::MotorRight(MotorDataType::AdcValue)));
    assert_eq!(values, vec![42]);
}

#[test]
fn dispatch_decodes_concatenated_commands() {
    // One payload carrying a right-speed value followed by a right-ADC
    // value fills both channels.
    let mut payload = vec![0x01u8, 0x00];
    payload.extend_from_slice(&2.0f32.to_bits().to_be_bytes());
    payload.extend_from_slice(&[0x01, 0x05, 0x01, 0x00]);

    let mut store = DataStore::new(100);
    re_pkt_data_store(&mut store, &payload);

    let bits = speed_bits(store.get(DataType::MotorRight(MotorDataType::SpeedPresent)));
    assert_eq!(f32::from_bits(bits[0]), 2.0);
    let values = adc_values(store.get(DataType::MotorRight(MotorDataType::AdcValue)));
    assert_eq!(values, vec![256]);
}

#[test]
fn dispatch_keeps_values_before_short_remainder() {
    // A left-ADC value followed by a truncated speed field keeps the
    // decoded value and aborts the remainder.
    let payload = vec![0x00u8, 0x05, 0x01, 0x02, 0x00, 0x00, 0x40];
    let mut store = DataStore::new(100);
    re_pkt_data_store(&mut store, &payload);
    assert_eq!(
        adc_values(store.get(DataType::MotorLeft(MotorDataType::AdcValue))),
        vec![0x0102]
    );
    assert!(speed_bits(store.get(DataType::MotorLeft(MotorDataType::SpeedPresent))).is_empty());
}

#[test]
fn dispatch_stops_on_unknown_prefix() {
    let payload = vec![0x09u8, 0x09, 0x00, 0x01];
    let mut store = DataStore::new(100);
    re_pkt_data_store(&mut store, &payload);
    assert!(adc_values(store.get(DataType::MotorLeft(MotorDataType::AdcValue))).is_empty());
    assert!(adc_values(store.get(DataType::MotorRight(MotorDataType::AdcValue))).is_empty());
}

#[test]
fn processor_skips_vehicle_control_frames() {
    let mut recv = UartTrceBuffer::new(10);
    let mut store = DataStore::new(100);
    // A vehicle-control frame ends the run; the telemetry frame behind
    // it stays queued.
    let control = mcu_link::uart_packet::UartPacket::new(&[0x20, 0x01]).unwrap();
    let telemetry = mcu_link::uart_packet::UartPacket::new(&[0x10, 0x01, 0x05, 0x00, 0x01]).unwrap();
    recv.push(control).unwrap();
    recv.push(telemetry).unwrap();
    re_pkt_proccess(&mut recv, &mut store);
    assert_eq!(recv.get_length(), 1);
    assert!(adc_values(store.get(DataType::MotorRight(MotorDataType::AdcValue))).is_empty());
}

#[test]
fn processor_handles_several_frames() {
    let mut recv = UartTrceBuffer::new(10);
    let mut store = DataStore::new(100);
    for v in [1u8, 2, 3] {
        let p = mcu_link::uart_packet::UartPacket::new(&[0x10, 0x01, 0x05, 0x00, v]).unwrap();
        recv.push(p).unwrap();
    }
    re_pkt_proccess(&mut recv, &mut store);
    assert!(recv.is_empty());
    assert_eq!(
        adc_values(store.get(DataType::MotorRight(MotorDataType::AdcValue))),
        vec![1, 2, 3]
    );
}

#[test]
fn speed_setpoint_and_rotation_channels() {
    let mut store = MotorDataStore::new(2);
    store.push(MotorDataType::SpeedSetpoint, 9);
    store.push(MotorDataType::RotateDirection, 1);
    match store.get(MotorDataType::SpeedSetpoint) {
        DataSlice::U8(v) => assert_eq!(v, vec![9]),
        _ => panic!("expected a u8 channel"),
    }
    match store.get(MotorDataType::RotateDirection) {
        DataSlice::U8(v) => assert_eq!(v, vec![1]),
        _ => panic!("expected a u8 channel"),
    }
    store.clear(MotorDataType::SpeedSetpoint);
    match store.get(MotorDataType::SpeedSetpoint) {
        DataSlice::U8(v) => assert!(v.is_empty()),
        _ => panic!("expected a u8 channel"),
    }
}

#[test]
fn vehicle_position_channel_is_unbounded() {
    let mut store = DataStore::new(1);
    for v in [5u64, 6, 7] {
        store.push(DataType::VehicelPos, v);
    }
    match store.get(DataType::VehicelPos) {
        DataSlice::U16(v) => assert_eq!(v, vec![5, 6, 7]),
        _ => panic!("expected a u16 channel"),
    }
}
