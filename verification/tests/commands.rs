use mcu_link::error::CommError;
use mcu_link::mcu_const::{cmd_info, CmdTag};
use mcu_link::mcu_control::{cmd_send_spd_once, cmd_send_spd_start, cmd_send_spd_stop, send_command};
use mcu_link::transport::writer_pop_frame;
use mcu_link::uart_packet_proc::UartTrceBuffer;

#[test]
fn send_right_speed_once_then_writer_drains() {
    // Queueing RIGHT_SPEED_ONCE on an empty transmit buffer of capacity
    // 1 raises its length to 1; one writer-loop iteration drains it back
    // to 0 and yields the framed command.
    let mut transmit = UartTrceBuffer::new(1);
    assert_eq!(transmit.get_length(), 0);
    send_command(&mut transmit, CmdTag::RightSpeedOnce, &[]).unwrap();
    assert_eq!(transmit.get_length(), 1);

    let frame = writer_pop_frame(&mut transmit).unwrap();
    assert_eq!(transmit.get_length(), 0);
    assert_eq!(frame, vec![b'{', 0x10, 0x01, 0x00, 0x01, b'}']);
    assert_eq!(
        writer_pop_frame(&mut transmit).unwrap_err(),
        CommError::BufferEmpty
    );
}

#[test]
fn send_command_reports_buffer_full() {
    let mut transmit = UartTrceBuffer::new(1);
    send_command(&mut transmit, CmdTag::MoveForward, &[]).unwrap();
    assert_eq!(
        send_command(&mut transmit, CmdTag::MoveStop, &[]).unwrap_err(),
        CommError::BufferFull
    );
    assert_eq!(transmit.get_length(), 1);
}

#[test]
fn send_command_reports_payload_too_long() {
    let mut transmit = UartTrceBuffer::new(4);
    let extra = vec![0u8; 250];
    // class byte + 3 payload bytes + 250 extra bytes = 254 > 253.
    assert_eq!(
        send_command(&mut transmit, CmdTag::RightSpeedOnce, &extra).unwrap_err(),
        CommError::PayloadTooLong
    );
    assert_eq!(transmit.get_length(), 0);
    // One byte less fits.
    assert!(send_command(&mut transmit, CmdTag::RightSpeedOnce, &extra[..249]).is_ok());
}

#[test]
fn send_command_appends_extra_payload() {
    let mut transmit = UartTrceBuffer::new(2);
    send_command(&mut transmit, CmdTag::MoveLeft, &[0xAB]).unwrap();
    let frame = writer_pop_frame(&mut transmit).unwrap();
    assert_eq!(frame, vec![b'{', 0x20, 0x03, 0xAB, b'}']);
}

#[test]
fn spd_stop_once_start_queue_expected_bytes() {
    let mut transmit = UartTrceBuffer::new(3);
    cmd_send_spd_stop(&mut transmit).unwrap();
    cmd_send_spd_once(&mut transmit).unwrap();
    cmd_send_spd_start(&mut transmit).unwrap();
    assert_eq!(transmit.get_length(), 3);
    let stop = transmit.pop_front().unwrap();
    assert_eq!(stop.data(), vec![0x10, 0x01, 0x00, 0x00, 0x01, 0x05, 0x00]);
    let once = transmit.pop_front().unwrap();
    assert_eq!(once.data(), vec![0x10, 0x01, 0x00, 0x01, 0x01, 0x05, 0x01]);
    let start = transmit.pop_front().unwrap();
    assert_eq!(start.data(), vec![0x10, 0x01, 0x00, 0x02, 0x01, 0x05, 0x02]);
}

#[test]
fn spd_commands_report_buffer_full() {
    let mut transmit = UartTrceBuffer::new(0);
    assert_eq!(
        cmd_send_spd_once(&mut transmit).unwrap_err(),
        CommError::BufferFull
    );
}

#[test]
fn command_table_entries() {
    let info = cmd_info(CmdTag::RightSpeedOnce);
    assert_eq!(info.name, "CMD_RIGHT_SPEED_ONCE");
    assert_eq!(info.class, 0x10);
    assert_eq!(info.payload, vec![0x01, 0x00, 0x01]);

    let info = cmd_info(CmdTag::LeftAdcStore);
    assert_eq!(info.name, "CMD_LEFT_ADC_STORE");
    assert_eq!(info.class, 0x10);
    assert_eq!(info.payload, vec![0x00, 0x05]);

    let info = cmd_info(CmdTag::MoveBackward);
    assert_eq!(info.name, "CMD_MOVE_BACKWARD");
    assert_eq!(info.class, 0x20);
    assert_eq!(info.payload, vec![0x02]);
}
