use mcu_link::error::CommError;
use mcu_link::packet;
use mcu_link::uart_packet;

#[test]
fn round_trip_serial_packet() {
    // Frame a payload, parse it back, and serialize again: the raw bytes
    // are unchanged.
    let payload = vec![1u8, 2, 3, 4, 5];
    let packet = packet::UartPacket::new(payload.clone()).unwrap();
    let raw = packet.unpack().unwrap();
    assert_eq!(raw, vec![b'{', 1, 2, 3, 4, 5, b'}']);
    let reparsed = packet::UartPacket::pack(raw.clone()).unwrap();
    assert_eq!(reparsed.data(), payload);
    assert_eq!(reparsed.unpack().unwrap(), raw);
}

#[test]
fn round_trip_empty_payload() {
    let packet = packet::UartPacket::new(Vec::new()).unwrap();
    let raw = packet.unpack().unwrap();
    assert_eq!(raw, vec![b'{', b'}']);
    let reparsed = packet::UartPacket::pack(raw).unwrap();
    assert!(reparsed.data().is_empty());
}

#[test]
fn round_trip_max_payload() {
    let payload = vec![0xAAu8; 38];
    let packet = packet::UartPacket::new(payload.clone()).unwrap();
    let raw = packet.unpack().unwrap();
    assert_eq!(raw.len(), 40);
    let reparsed = packet::UartPacket::pack(raw).unwrap();
    assert_eq!(reparsed.data(), payload);
}

#[test]
fn new_rejects_long_payload() {
    let payload = vec![0u8; 39];
    assert_eq!(
        packet::UartPacket::new(payload).unwrap_err(),
        CommError::PayloadTooLong
    );
}

#[test]
fn pack_missing_start_marker() {
    let raw = vec![9u8, 1, 2, b'}'];
    assert_eq!(
        packet::UartPacket::pack(raw).unwrap_err(),
        CommError::FramingError
    );
}

#[test]
fn pack_missing_end_marker() {
    let raw = vec![b'{', 1, 2, 9];
    assert_eq!(
        packet::UartPacket::pack(raw).unwrap_err(),
        CommError::FramingError
    );
}

#[test]
fn pack_empty_buffer() {
    assert_eq!(
        packet::UartPacket::pack(Vec::new()).unwrap_err(),
        CommError::FramingError
    );
}

#[test]
fn pack_single_marker_byte() {
    assert_eq!(
        packet::UartPacket::pack(vec![b'{']).unwrap_err(),
        CommError::FramingError
    );
}

#[test]
fn packet_accessors() {
    let packet = packet::UartPacket::new(vec![7u8, 8]).unwrap();
    assert_eq!(packet.start(), b'{');
    assert_eq!(packet.end(), b'}');
    assert_eq!(packet.data(), vec![7u8, 8]);
    assert!(packet.check_start_code().is_ok());
    assert!(packet.check_end_code().is_ok());
    assert!(!packet.show().is_empty());
}

#[test]
fn round_trip_uart_packet() {
    let payload = vec![10u8, 20, 30];
    let packet = uart_packet::UartPacket::new(&payload).unwrap();
    let raw = packet.unpack();
    assert_eq!(raw, vec![b'{', 10, 20, 30, b'}']);
    let reparsed = uart_packet::UartPacket::pack(raw.clone()).unwrap();
    assert_eq!(reparsed.data(), payload);
    assert_eq!(reparsed.unpack(), raw);
}

#[test]
fn uart_packet_rejects_long_payload() {
    let payload = vec![0u8; 254];
    assert_eq!(
        uart_packet::UartPacket::new(&payload).unwrap_err(),
        CommError::PayloadTooLong
    );
    let accepted = vec![0u8; 253];
    assert!(uart_packet::UartPacket::new(&accepted).is_ok());
}

#[test]
fn uart_pack_rejects_missing_markers() {
    assert_eq!(
        uart_packet::UartPacket::pack(vec![1, 2, 3]).unwrap_err(),
        CommError::FramingError
    );
    assert_eq!(
        uart_packet::UartPacket::pack(vec![b'{', 1, 2]).unwrap_err(),
        CommError::FramingError
    );
    assert_eq!(
        uart_packet::UartPacket::pack(vec![1, 2, b'}']).unwrap_err(),
        CommError::FramingError
    );
}
