use mcu_link::connection::ConnectionManager;
use mcu_link::error::CommError;
use mcu_link::transport::{read_step, ReadAction, ReadEvent};
use mcu_link::uart_packet_proc::UartTrceBuffer;

#[test]
fn close_while_not_open_returns_not_open() {
    // close() invoked while check_open() is already Err(NotOpen) returns
    // NotOpen.
    let mut mgr = ConnectionManager::new();
    assert_eq!(mgr.check_open().unwrap_err(), CommError::NotOpen);
    assert_eq!(mgr.close().unwrap_err(), CommError::NotOpen);
}

#[test]
fn open_close_cycle() {
    let mut mgr = ConnectionManager::new();
    mgr.open(String::from("COM3"), true).unwrap();
    assert!(mgr.check_open().is_ok());
    mgr.close().unwrap();
    assert_eq!(mgr.check_open().unwrap_err(), CommError::NotOpen);
    assert_eq!(mgr.close().unwrap_err(), CommError::NotOpen);
}

#[test]
fn open_while_open_is_rejected() {
    let mut mgr = ConnectionManager::new();
    mgr.open(String::from("COM3"), true).unwrap();
    assert_eq!(
        mgr.open(String::from("COM4"), true).unwrap_err(),
        CommError::OpenFailed
    );
    assert!(mgr.check_open().is_ok());
}

#[test]
fn open_fails_when_transport_not_acquired() {
    let mut mgr = ConnectionManager::new();
    assert_eq!(
        mgr.open(String::from("COM9"), false).unwrap_err(),
        CommError::OpenFailed
    );
    assert_eq!(mgr.check_open().unwrap_err(), CommError::NotOpen);
}

#[test]
fn reader_idles_on_timeout_with_empty_frame() {
    let mut frame: Vec<u8> = Vec::new();
    match read_step(&mut frame, ReadEvent::TimedOut) {
        ReadAction::Idle => {}
        other => panic!("expected Idle, got {:?}", other),
    }
    assert!(frame.is_empty());
}

#[test]
fn reader_discards_frame_on_timeout_without_end_marker() {
    let mut frame: Vec<u8> = Vec::new();
    for b in [b'{', 1, 2] {
        match read_step(&mut frame, ReadEvent::ByteRead(b)) {
            ReadAction::KeepReading => {}
            other => panic!("expected KeepReading, got {:?}", other),
        }
    }
    match read_step(&mut frame, ReadEvent::TimedOut) {
        ReadAction::Discard(e) => assert_eq!(e, CommError::FramingError),
        other => panic!("expected Discard, got {:?}", other),
    }
    assert!(frame.is_empty());
    // The reader resumes at a fresh frame afterwards.
    match read_step(&mut frame, ReadEvent::TimedOut) {
        ReadAction::Idle => {}
        other => panic!("expected Idle, got {:?}", other),
    }
}

#[test]
fn reader_discards_frame_missing_start_marker() {
    let mut frame: Vec<u8> = Vec::new();
    for b in [9u8, b'}'] {
        read_step(&mut frame, ReadEvent::ByteRead(b));
    }
    match read_step(&mut frame, ReadEvent::TimedOut) {
        ReadAction::Discard(e) => assert_eq!(e, CommError::FramingError),
        other => panic!("expected Discard, got {:?}", other),
    }
}

#[test]
fn reader_clears_frame_on_transport_error() {
    let mut frame: Vec<u8> = Vec::new();
    read_step(&mut frame, ReadEvent::ByteRead(b'{'));
    match read_step(&mut frame, ReadEvent::ReadFailed) {
        ReadAction::Discard(e) => assert_eq!(e, CommError::TransportIo),
        other => panic!("expected Discard, got {:?}", other),
    }
    assert!(frame.is_empty());
}

#[test]
fn reader_delivers_complete_frame() {
    let mut frame: Vec<u8> = Vec::new();
    for b in [b'{', 0x20, 0x01, b'}'] {
        match read_step(&mut frame, ReadEvent::ByteRead(b)) {
            ReadAction::KeepReading => {}
            other => panic!("expected KeepReading, got {:?}", other),
        }
    }
    match read_step(&mut frame, ReadEvent::TimedOut) {
        ReadAction::DeliverFrame(p) => assert_eq!(p.data(), vec![0x20, 0x01]),
        other => panic!("expected DeliverFrame, got {:?}", other),
    }
    assert!(frame.is_empty());
}

#[test]
fn reader_drops_packet_when_receive_buffer_full() {
    // The worker does not block or retry on a full receive buffer: the
    // push reports BufferFull and the packet is dropped.
    let mut recv = UartTrceBuffer::new(0);
    let p = mcu_link::uart_packet::UartPacket::new(&[1]).unwrap();
    assert_eq!(recv.push(p).unwrap_err(), CommError::BufferFull);
    assert!(recv.is_empty());
}
