//! Transport and packet core for a host-to-motor-controller link.
//!
//! The library covers the byte-level packet codec, bounded transmit/receive
//! buffers with explicit backpressure, the telemetry dispatcher with its
//! bounded history channels, the command encoder, and the pure decision
//! logic of the connection manager and its reader/writer workers. All I/O
//! (serial ports, TCP/UDP sockets, task scheduling) lives outside the
//! library and hands plain values in and out.

pub mod connection;
pub mod error;
pub mod mcu_const;
pub mod mcu_control;
pub mod mcu_store;
pub mod packet;
pub mod packet_proc;
pub mod transport;
pub mod uart_packet;
pub mod uart_packet_proc;
pub mod user_vec;
pub mod wifi_packet;
pub mod wifi_packet_proc;
