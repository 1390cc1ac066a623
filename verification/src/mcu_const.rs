//! Static command table of the motor controller protocol.
//!
//! A command byte sequence is `[class][motor_side][quantity][mode?]`:
//! the class selects data transfer or vehicle control, and the mode is
//! present only for streaming commands.

use vstd::prelude::*;

verus! {

/// Class byte: telemetry / data transfer.
pub const CMD_CODE_DATA_TRRE: u8 = 0x10;

/// Class byte: vehicle control.
pub const CMD_CODE_VECH_CONTROL: u8 = 0x20;

/// Mode byte: stop a streaming command.
pub const CMD_CODE_LOOP_STOP: u8 = 0x00;

/// Mode byte: run a command once.
pub const CMD_CODE_ONLY_ONCE: u8 = 0x01;

/// Mode byte: start a streaming command.
pub const CMD_CODE_LOOP_START: u8 = 0x02;

/// Motor side byte: left motor.
pub const CMD_CODE_MOTOR_LEFT: u8 = 0x00;

/// Motor side byte: right motor.
pub const CMD_CODE_MOTOR_RIGHT: u8 = 0x01;

/// Quantity byte: motor speed.
pub const CMD_CODE_SPEED: u8 = 0x00;

/// Quantity byte: motor ADC reading.
pub const CMD_CODE_ADC: u8 = 0x05;

/// One entry of the static command table: a symbolic name, the class
/// byte, and the command's own payload bytes (side, quantity, mode).
#[derive(Debug)]
pub struct CmdInfo {
    pub name: &'static str,
    pub class: u8,
    pub payload: Vec<u8>,
}

/// Symbolic tag of every command the table defines.
#[derive(Clone, Copy, Debug, PartialEq, Eq, Structural)]
pub enum CmdTag {
    LeftSpeedStore,
    LeftSpeedStop,
    LeftSpeedOnce,
    LeftSpeedStart,
    LeftAdcStore,
    LeftAdcStop,
    LeftAdcOnce,
    LeftAdcStart,
    RightSpeedStore,
    RightSpeedStop,
    RightSpeedOnce,
    RightSpeedStart,
    RightAdcStore,
    RightAdcStop,
    RightAdcOnce,
    RightAdcStart,
    MoveStop,
    MoveForward,
    MoveBackward,
    MoveLeft,
    MoveRight,
}

/// The class byte of a command.
pub open spec fn spec_cmd_class(tag: CmdTag) -> u8 {
    match tag {
        CmdTag::MoveStop => CMD_CODE_VECH_CONTROL,
        CmdTag::MoveForward => CMD_CODE_VECH_CONTROL,
        CmdTag::MoveBackward => CMD_CODE_VECH_CONTROL,
        CmdTag::MoveLeft => CMD_CODE_VECH_CONTROL,
        CmdTag::MoveRight => CMD_CODE_VECH_CONTROL,
        _ => CMD_CODE_DATA_TRRE,
    }
}

/// The payload bytes of a command, class byte excluded.
pub open spec fn spec_cmd_payload(tag: CmdTag) -> Seq<u8> {
    match tag {
        CmdTag::LeftSpeedStore => seq![CMD_CODE_MOTOR_LEFT, CMD_CODE_SPEED],
        CmdTag::LeftSpeedStop => seq![CMD_CODE_MOTOR_LEFT, CMD_CODE_SPEED, CMD_CODE_LOOP_STOP],
        CmdTag::LeftSpeedOnce => seq![CMD_CODE_MOTOR_LEFT, CMD_CODE_SPEED, CMD_CODE_ONLY_ONCE],
        CmdTag::LeftSpeedStart => seq![CMD_CODE_MOTOR_LEFT, CMD_CODE_SPEED, CMD_CODE_LOOP_START],
        CmdTag::LeftAdcStore => seq![CMD_CODE_MOTOR_LEFT, CMD_CODE_ADC],
        CmdTag::LeftAdcStop => seq![CMD_CODE_MOTOR_LEFT, CMD_CODE_ADC, CMD_CODE_LOOP_STOP],
        CmdTag::LeftAdcOnce => seq![CMD_CODE_MOTOR_LEFT, CMD_CODE_ADC, CMD_CODE_ONLY_ONCE],
        CmdTag::LeftAdcStart => seq![CMD_CODE_MOTOR_LEFT, CMD_CODE_ADC, CMD_CODE_LOOP_START],
        CmdTag::RightSpeedStore => seq![CMD_CODE_MOTOR_RIGHT, CMD_CODE_SPEED],
        CmdTag::RightSpeedStop => seq![CMD_CODE_MOTOR_RIGHT, CMD_CODE_SPEED, CMD_CODE_LOOP_STOP],
        CmdTag::RightSpeedOnce => seq![CMD_CODE_MOTOR_RIGHT, CMD_CODE_SPEED, CMD_CODE_ONLY_ONCE],
        CmdTag::RightSpeedStart => seq![
            CMD_CODE_MOTOR_RIGHT,
            CMD_CODE_SPEED,
            CMD_CODE_LOOP_START,
        ],
        CmdTag::RightAdcStore => seq![CMD_CODE_MOTOR_RIGHT, CMD_CODE_ADC],
        CmdTag::RightAdcStop => seq![CMD_CODE_MOTOR_RIGHT, CMD_CODE_ADC, CMD_CODE_LOOP_STOP],
        CmdTag::RightAdcOnce => seq![CMD_CODE_MOTOR_RIGHT, CMD_CODE_ADC, CMD_CODE_ONLY_ONCE],
        CmdTag::RightAdcStart => seq![CMD_CODE_MOTOR_RIGHT, CMD_CODE_ADC, CMD_CODE_LOOP_START],
        CmdTag::MoveStop => seq![0x00u8],
        CmdTag::MoveForward => seq![0x01u8],
        CmdTag::MoveBackward => seq![0x02u8],
        CmdTag::MoveLeft => seq![0x03u8],
        CmdTag::MoveRight => seq![0x04u8],
    }
}

/// Builds a one-byte payload.
fn byte_one(a: u8) -> (r: Vec<u8>)
    ensures
        r@ == seq![a],
{
    let mut v: Vec<u8> = Vec::new();
    v.push(a);
    proof {
        assert(v@ =~= seq![a]);
    }
    v
}

/// Builds a two-byte payload.
fn byte_pair(a: u8, b: u8) -> (r: Vec<u8>)
    ensures
        r@ == seq![a, b],
{
    let mut v: Vec<u8> = Vec::new();
    v.push(a);
    v.push(b);
    proof {
        assert(v@ =~= seq![a, b]);
    }
    v
}

/// Builds a three-byte payload.
fn byte_triple(a: u8, b: u8, c: u8) -> (r: Vec<u8>)
    ensures
        r@ == seq![a, b, c],
{
    let mut v: Vec<u8> = Vec::new();
    v.push(a);
    v.push(b);
    v.push(c);
    proof {
        assert(v@ =~= seq![a, b, c]);
    }
    v
}

/// Looks the command `tag` up in the static table.
pub fn cmd_info(tag: CmdTag) -> (r: CmdInfo)
    ensures
        r.class == spec_cmd_class(tag),
        r.payload@ == spec_cmd_payload(tag),
{
    match tag {
        CmdTag::LeftSpeedStore => CmdInfo {
            name: "CMD_LEFT_SPEED_STORE",
            class: CMD_CODE_DATA_TRRE,
            payload: byte_pair(CMD_CODE_MOTOR_LEFT, CMD_CODE_SPEED),
        },
        CmdTag::LeftSpeedStop => CmdInfo {
            name: "CMD_LEFT_SPEED_STOP",
            class: CMD_CODE_DATA_TRRE,
            payload: byte_triple(CMD_CODE_MOTOR_LEFT, CMD_CODE_SPEED, CMD_CODE_LOOP_STOP),
        },
        CmdTag::LeftSpeedOnce => CmdInfo {
            name: "CMD_LEFT_SPEED_ONCE",
            class: CMD_CODE_DATA_TRRE,
            payload: byte_triple(CMD_CODE_MOTOR_LEFT, CMD_CODE_SPEED, CMD_CODE_ONLY_ONCE),
        },
        CmdTag::LeftSpeedStart => CmdInfo {
            name: "CMD_LEFT_SPEED_START",
            class: CMD_CODE_DATA_TRRE,
            payload: byte_triple(CMD_CODE_MOTOR_LEFT, CMD_CODE_SPEED, CMD_CODE_LOOP_START),
        },
        CmdTag::LeftAdcStore => CmdInfo {
            name: "CMD_LEFT_ADC_STORE",
            class: CMD_CODE_DATA_TRRE,
            payload: byte_pair(CMD_CODE_MOTOR_LEFT, CMD_CODE_ADC),
        },
        CmdTag::LeftAdcStop => CmdInfo {
            name: "CMD_LEFT_ADC_STOP",
            class: CMD_CODE_DATA_TRRE,
            payload: byte_triple(CMD_CODE_MOTOR_LEFT, CMD_CODE_ADC, CMD_CODE_LOOP_STOP),
        },
        CmdTag::LeftAdcOnce => CmdInfo {
            name: "CMD_LEFT_ADC_ONCE",
            class: CMD_CODE_DATA_TRRE,
            payload: byte_triple(CMD_CODE_MOTOR_LEFT, CMD_CODE_ADC, CMD_CODE_ONLY_ONCE),
        },
        CmdTag::LeftAdcStart => CmdInfo {
            name: "CMD_LEFT_ADC_START",
            class: CMD_CODE_DATA_TRRE,
            payload: byte_triple(CMD_CODE_MOTOR_LEFT, CMD_CODE_ADC, CMD_CODE_LOOP_START),
        },
        CmdTag::RightSpeedStore => CmdInfo {
            name: "CMD_RIGHT_SPEED_STORE",
            class: CMD_CODE_DATA_TRRE,
            payload: byte_pair(CMD_CODE_MOTOR_RIGHT, CMD_CODE_SPEED),
        },
        CmdTag::RightSpeedStop => CmdInfo {
            name: "CMD_RIGHT_SPEED_STOP",
            class: CMD_CODE_DATA_TRRE,
            payload: byte_triple(CMD_CODE_MOTOR_RIGHT, CMD_CODE_SPEED, CMD_CODE_LOOP_STOP),
        },
        CmdTag::RightSpeedOnce => CmdInfo {
            name: "CMD_RIGHT_SPEED_ONCE",
            class: CMD_CODE_DATA_TRRE,
            payload: byte_triple(CMD_CODE_MOTOR_RIGHT, CMD_CODE_SPEED, CMD_CODE_ONLY_ONCE),
        },
        CmdTag::RightSpeedStart => CmdInfo {
            name: "CMD_RIGHT_SPEED_START",
            class: CMD_CODE_DATA_TRRE,
            payload: byte_triple(CMD_CODE_MOTOR_RIGHT, CMD_CODE_SPEED, CMD_CODE_LOOP_START),
        },
        CmdTag::RightAdcStore => CmdInfo {
            name: "CMD_RIGHT_ADC_STORE",
            class: CMD_CODE_DATA_TRRE,
            payload: byte_pair(CMD_CODE_MOTOR_RIGHT, CMD_CODE_ADC),
        },
        CmdTag::RightAdcStop => CmdInfo {
            name: "CMD_RIGHT_ADC_STOP",
            class: CMD_CODE_DATA_TRRE,
            payload: byte_triple(CMD_CODE_MOTOR_RIGHT, CMD_CODE_ADC, CMD_CODE_LOOP_STOP),
        },
        CmdTag::RightAdcOnce => CmdInfo {
            name: "CMD_RIGHT_ADC_ONCE",
            class: CMD_CODE_DATA_TRRE,
            payload: byte_triple(CMD_CODE_MOTOR_RIGHT, CMD_CODE_ADC, CMD_CODE_ONLY_ONCE),
        },
        CmdTag::RightAdcStart => CmdInfo {
            name: "CMD_RIGHT_ADC_START",
            class: CMD_CODE_DATA_TRRE,
            payload: byte_triple(CMD_CODE_MOTOR_RIGHT, CMD_CODE_ADC, CMD_CODE_LOOP_START),
        },
        CmdTag::MoveStop => CmdInfo {
            name: "CMD_MOVE_STOP",
            class: CMD_CODE_VECH_CONTROL,
            payload: byte_one(0x00),
        },
        CmdTag::MoveForward => CmdInfo {
            name: "CMD_MOVE_FORWARD",
            class: CMD_CODE_VECH_CONTROL,
            payload: byte_one(0x01),
        },
        CmdTag::MoveBackward => CmdInfo {
            name: "CMD_MOVE_BACKWARD",
            class: CMD_CODE_VECH_CONTROL,
            payload: byte_one(0x02),
        },
        CmdTag::MoveLeft => CmdInfo {
            name: "CMD_MOVE_LEFT",
            class: CMD_CODE_VECH_CONTROL,
            payload: byte_one(0x03),
        },
        CmdTag::MoveRight => CmdInfo {
            name: "CMD_MOVE_RIGHT",
            class: CMD_CODE_VECH_CONTROL,
            payload: byte_one(0x04),
        },
    }
}

} // verus!
