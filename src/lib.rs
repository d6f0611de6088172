//! A client library for the ServerListPing status protocol: the VarInt
//! codec, packet framing, the status packets and the sequencer that drives
//! one status exchange, each with a verified contract.

pub mod error;
pub mod framing;
pub mod packet;
pub mod server;
pub mod session;
pub mod varint;
