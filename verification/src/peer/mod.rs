//! The peer wire protocol: framed messages between two peers.

pub mod handshake;
pub mod message;
pub mod protocol;
