use mcu_link::error::CommError;
use mcu_link::packet;
use mcu_link::packet_proc::TrceBuffer;
use mcu_link::uart_packet;
use mcu_link::uart_packet::UartTransceiveBuffer;
use mcu_link::uart_packet_proc::UartTrceBuffer;
use mcu_link::user_vec::UserVecU8;
use mcu_link::wifi_packet;
use mcu_link::wifi_packet_proc;

fn uart_pkt(byte: u8) -> uart_packet::UartPacket {
    uart_packet::UartPacket::new(&[byte]).unwrap()
}

#[test]
fn push_at_capacity_fails_then_pop_makes_room() {
    // A buffer at capacity refuses with BufferFull; after one pop_front
    // the next push succeeds.
    let mut buf = UartTrceBuffer::new(2);
    buf.push(uart_pkt(1)).unwrap();
    buf.push(uart_pkt(2)).unwrap();
    assert!(buf.is_full());
    assert_eq!(buf.push(uart_pkt(3)).unwrap_err(), CommError::BufferFull);
    assert_eq!(buf.get_length(), 2);
    let popped = buf.pop_front().unwrap();
    assert_eq!(popped.data(), vec![1u8]);
    assert!(buf.push(uart_pkt(3)).is_ok());
    assert_eq!(buf.get_length(), 2);
}

#[test]
fn pop_front_on_empty_returns_buffer_empty() {
    let mut buf = UartTrceBuffer::new(4);
    assert!(buf.is_empty());
    assert_eq!(buf.pop_front().unwrap_err(), CommError::BufferEmpty);
    assert_eq!(buf.pop_front().unwrap_err(), CommError::BufferEmpty);
}

#[test]
fn fifo_order_is_kept() {
    let mut buf = UartTrceBuffer::new(5);
    for b in [10u8, 20, 30] {
        buf.push(uart_pkt(b)).unwrap();
    }
    assert_eq!(buf.pop_front().unwrap().data(), vec![10u8]);
    assert_eq!(buf.pop_front().unwrap().data(), vec![20u8]);
    assert_eq!(buf.pop_front().unwrap().data(), vec![30u8]);
    assert!(buf.is_empty());
}

#[test]
fn take_all_drains_buffer() {
    let mut buf = UartTrceBuffer::new(3);
    buf.push(uart_pkt(1)).unwrap();
    buf.push(uart_pkt(2)).unwrap();
    let all = buf.take_all();
    assert_eq!(all.len(), 2);
    assert_eq!(all[0].data(), vec![1u8]);
    assert_eq!(all[1].data(), vec![2u8]);
    assert!(buf.is_empty());
    assert_eq!(buf.get_length(), 0);
}

#[test]
fn show_renders_at_most_n() {
    let mut buf = UartTrceBuffer::new(5);
    buf.push(uart_pkt(1)).unwrap();
    buf.push(uart_pkt(2)).unwrap();
    assert_eq!(buf.show(1).len(), 1);
    assert_eq!(buf.show(5).len(), 2);
    assert_eq!(buf.get_length(), 2);
}

#[test]
fn transceive_buffer_backpressure() {
    let mut buf = UartTransceiveBuffer::new(1);
    buf.push(uart_pkt(7)).unwrap();
    assert_eq!(buf.push(uart_pkt(8)).unwrap_err(), CommError::BufferFull);
    assert_eq!(buf.pop_front().unwrap().data(), vec![7u8]);
    assert_eq!(buf.pop_front().unwrap_err(), CommError::BufferEmpty);
}

#[test]
fn trce_buffer_of_serial_packets() {
    let mut buf = TrceBuffer::new(2);
    let p = packet::UartPacket::new(vec![1u8, 2]).unwrap();
    buf.push(p).unwrap();
    assert_eq!(buf.get_length(), 1);
    assert!(!buf.is_full());
    let popped = buf.pop_front().unwrap();
    assert_eq!(popped.data(), vec![1u8, 2]);
    assert!(buf.pop_front().is_none());
}

#[test]
fn user_vec_push_and_extend_bounds() {
    let mut v = UserVecU8::new(3);
    assert_eq!(v.get_max_len(), 3);
    assert!(v.is_empty());
    v.push(1).unwrap();
    v.extend(&[2, 3]).unwrap();
    assert!(v.is_full());
    assert_eq!(v.push(4).unwrap_err(), CommError::BufferFull);
    assert_eq!(v.extend(&[4]).unwrap_err(), CommError::BufferFull);
    assert_eq!(v.show(), vec![1u8, 2, 3]);
    assert_eq!(v.len(), 3);
    v.clear();
    assert!(v.is_empty());
    assert!(v.push(9).is_ok());
}

#[test]
fn user_vec_extend_is_all_or_nothing() {
    let mut v = UserVecU8::new(2);
    v.push(1).unwrap();
    assert_eq!(v.extend(&[2, 3]).unwrap_err(), CommError::BufferFull);
    assert_eq!(v.show(), vec![1u8]);
}

#[test]
fn wifi_buffer_of_packets() {
    let ip = wifi_packet::HostIp {
        o0: 192,
        o1: 168,
        o2: 0,
        o3: 20,
    };
    let mut buf = wifi_packet::WifiTrceBuffer::new(1, 1024);
    let p = wifi_packet::WifiPacket::new(ip, &[1, 2, 3]).unwrap();
    buf.push(p).unwrap();
    let q = wifi_packet::WifiPacket::new(ip, &[4]).unwrap();
    assert_eq!(buf.push(q).unwrap_err(), CommError::BufferFull);
    let popped = buf.pop_front().unwrap();
    assert_eq!(popped.data(), vec![1u8, 2, 3]);
    assert_eq!(popped.target_ip(), ip);
    assert_eq!(buf.pop_front().unwrap_err(), CommError::BufferEmpty);
}

#[test]
fn wifi_packet_rejects_long_payload() {
    let ip = wifi_packet::HostIp {
        o0: 0,
        o1: 0,
        o2: 0,
        o3: 0,
    };
    let long = vec![0u8; 1025];
    assert_eq!(
        wifi_packet::WifiPacket::new(ip, &long).unwrap_err(),
        CommError::PayloadTooLong
    );
    assert!(wifi_packet::WifiPacket::new(ip, &long[..1024]).is_ok());
}

#[test]
fn wifi_raw_buffer_push_pop() {
    let mut buf = wifi_packet_proc::WifiTrceBuffer::new(2);
    buf.push(&[5, 6]).unwrap();
    buf.push(&[7]).unwrap();
    assert!(buf.is_full());
    assert_eq!(buf.push(&[8]).unwrap_err(), CommError::BufferFull);
    assert_eq!(buf.pop_front().unwrap(), vec![5u8, 6]);
    assert_eq!(buf.pop_front().unwrap(), vec![7u8]);
    assert_eq!(buf.pop_front().unwrap_err(), CommError::BufferEmpty);
}

#[test]
fn wifi_raw_buffer_rejects_long_payload() {
    let mut buf = wifi_packet_proc::WifiTrceBuffer::new(2);
    let long = vec![0u8; 1025];
    assert_eq!(buf.push(&long).unwrap_err(), CommError::PayloadTooLong);
    assert!(buf.is_empty());
    let all = buf.take_all();
    assert!(all.is_empty());
}
