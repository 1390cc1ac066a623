//! Command encoder: builds outgoing packets from the static command
//! table and pushes them onto the transmit buffer.

use vstd::prelude::*;

use crate::error::CommError;
use crate::mcu_const::cmd_info;
use crate::mcu_const::spec_cmd_class;
use crate::mcu_const::spec_cmd_payload;
use crate::mcu_const::CmdTag;
use crate::mcu_const::CMD_CODE_ADC;
use crate::mcu_const::CMD_CODE_DATA_TRRE;
use crate::mcu_const::CMD_CODE_LOOP_START;
use crate::mcu_const::CMD_CODE_LOOP_STOP;
use crate::mcu_const::CMD_CODE_MOTOR_RIGHT;
use crate::mcu_const::CMD_CODE_ONLY_ONCE;
use crate::mcu_const::CMD_CODE_SPEED;
use crate::uart_packet::UartPacket;
use crate::uart_packet::UART_PACKET_DATA_MAX_SIZE;
use crate::uart_packet_proc::UartTrceBuffer;

verus! {

/// The wire bytes of a command: its class byte followed by its own
/// payload from the table.
pub open spec fn spec_command_bytes(tag: CmdTag) -> Seq<u8> {
    seq![spec_cmd_class(tag)] + spec_cmd_payload(tag)
}

/// Appends all bytes of `src` to `dst`.
fn append_bytes(dst: &mut Vec<u8>, src: &[u8])
    ensures
        final(dst)@ == old(dst)@ + src@,
{
    let ghost start = dst@;
    let mut i: usize = 0;
    while i < src.len()
        invariant
            i <= src.len(),
            dst@ == start + src@.subrange(0, i as int),
        decreases src.len() - i,
    {
        dst.push(src[i]);
        i = i + 1;
        proof {
            assert(dst@ =~= start + src@.subrange(0, i as int));
        }
    }
    proof {
        assert(dst@ =~= start + src@);
    }
}

/// Encodes the command `tag` with the extra payload appended, builds
/// one packet, and pushes it onto the transmit buffer. A command whose
/// total payload exceeds the packet bound is refused with
/// `PayloadTooLong`; a full buffer refuses with `BufferFull`; in both
/// cases the buffer is unchanged. Errors are returned to the caller
/// unmodified, with no internal retry.
pub fn send_command(transmit: &mut UartTrceBuffer, tag: CmdTag, extra: &[u8]) -> (r: Result<
    (),
    CommError,
>)
    ensures
        final(transmit).max_spec() == old(transmit).max_spec(),
        old(transmit).wf() ==> final(transmit).wf(),
        spec_command_bytes(tag).len() + extra@.len() > UART_PACKET_DATA_MAX_SIZE ==> r == Err::<
            (),
            CommError,
        >(CommError::PayloadTooLong) && final(transmit)@ == old(transmit)@,
        spec_command_bytes(tag).len() + extra@.len() <= UART_PACKET_DATA_MAX_SIZE && old(transmit).spec_is_full() ==> r == Err::<(), CommError>(CommError::BufferFull) && final(transmit)@
            == old(transmit)@,
        spec_command_bytes(tag).len() + extra@.len() <= UART_PACKET_DATA_MAX_SIZE && !old(transmit).spec_is_full() ==> r == Ok::<(), CommError>(()) && final(transmit)@.len() == old(transmit)@.len() + 1 && final(transmit)@.drop_last() == old(transmit)@ && final(transmit)@.last()@ == spec_command_bytes(tag) + extra@ && final(transmit)@.last().wf(),
    {
        let info = cmd_info(tag);
        let mut bytes: Vec<u8> = Vec::new();
        bytes.push(info.class);
        append_bytes(&mut bytes, info.payload.as_slice());
        append_bytes(&mut bytes, extra);
        proof {
            assert(bytes@ =~= spec_command_bytes(tag) + extra@);
        }
        let packet = match UartPacket::new(bytes.as_slice()) {
            Ok(p) => p,
            Err(e) => {
                return Err(e);
            },
        };
        match transmit.push(packet) {
            Ok(()) => {
                proof {
                    assert(transmit@.drop_last() =~= old(transmit)@);
                }
                Ok(())
            },
            Err(e) => Err(e),
        }
    }

/// The wire bytes of the combined right-motor speed and ADC command
/// with the given mode byte.
pub open spec fn spec_spd_cmd_bytes(mode: u8) -> Seq<u8> {
    seq![
        CMD_CODE_DATA_TRRE,
        CMD_CODE_MOTOR_RIGHT,
        CMD_CODE_SPEED,
        mode,
        CMD_CODE_MOTOR_RIGHT,
        CMD_CODE_ADC,
        mode,
    ]
}

/// Queues one packet that stops the right-motor speed and ADC streams.
pub fn cmd_send_spd_stop(transmit: &mut UartTrceBuffer) -> (r: Result<(), CommError>)
    ensures
        final(transmit).max_spec() == old(transmit).max_spec(),
        old(transmit).wf() ==> final(transmit).wf(),
        old(transmit).spec_is_full() ==> r == Err::<(), CommError>(CommError::BufferFull)
            && final(transmit)@ == old(transmit)@,
        !old(transmit).spec_is_full() ==> r == Ok::<(), CommError>(()) && final(transmit)@.len()
            == old(transmit)@.len() + 1 && final(transmit)@.drop_last() == old(transmit)@
            && final(transmit)@.last()@ == spec_spd_cmd_bytes(CMD_CODE_LOOP_STOP) && final(transmit)@.last().wf(),
{
    let adc = cmd_info(CmdTag::RightAdcStop);
    let r = send_command(transmit, CmdTag::RightSpeedStop, adc.payload.as_slice());
    proof {
        assert(spec_command_bytes(CmdTag::RightSpeedStop) + spec_cmd_payload(
            CmdTag::RightAdcStop,
        ) =~= spec_spd_cmd_bytes(CMD_CODE_LOOP_STOP));
    }
    r
}

/// Queues one packet that requests the right-motor speed and ADC values
/// once.
pub fn cmd_send_spd_once(transmit: &mut UartTrceBuffer) -> (r: Result<(), CommError>)
    ensures
        final(transmit).max_spec() == old(transmit).max_spec(),
        old(transmit).wf() ==> final(transmit).wf(),
        old(transmit).spec_is_full() ==> r == Err::<(), CommError>(CommError::BufferFull)
            && final(transmit)@ == old(transmit)@,
        !old(transmit).spec_is_full() ==> r == Ok::<(), CommError>(()) && final(transmit)@.len()
            == old(transmit)@.len() + 1 && final(transmit)@.drop_last() == old(transmit)@
            && final(transmit)@.last()@ == spec_spd_cmd_bytes(CMD_CODE_ONLY_ONCE) && final(transmit)@.last().wf(),
{
    let adc = cmd_info(CmdTag::RightAdcOnce);
    let r = send_command(transmit, CmdTag::RightSpeedOnce, adc.payload.as_slice());
    proof {
        assert(spec_command_bytes(CmdTag::RightSpeedOnce) + spec_cmd_payload(
            CmdTag::RightAdcOnce,
        ) =~= spec_spd_cmd_bytes(CMD_CODE_ONLY_ONCE));
    }
    r
}

/// Queues one packet that starts the right-motor speed and ADC streams.
pub fn cmd_send_spd_start(transmit: &mut UartTrceBuffer) -> (r: Result<(), CommError>)
    ensures
        final(transmit).max_spec() == old(transmit).max_spec(),
        old(transmit).wf() ==> final(transmit).wf(),
        old(transmit).spec_is_full() ==> r == Err::<(), CommError>(CommError::BufferFull)
            && final(transmit)@ == old(transmit)@,
        !old(transmit).spec_is_full() ==> r == Ok::<(), CommError>(()) && final(transmit)@.len()
            == old(transmit)@.len() + 1 && final(transmit)@.drop_last() == old(transmit)@
            && final(transmit)@.last()@ == spec_spd_cmd_bytes(CMD_CODE_LOOP_START) && final(transmit)@.last().wf(),
{
    let adc = cmd_info(CmdTag::RightAdcStart);
    let r = send_command(transmit, CmdTag::RightSpeedStart, adc.payload.as_slice());
    proof {
        assert(spec_command_bytes(CmdTag::RightSpeedStart) + spec_cmd_payload(
            CmdTag::RightAdcStart,
        ) =~= spec_spd_cmd_bytes(CMD_CODE_LOOP_START));
    }
    r
}

} // verus!
