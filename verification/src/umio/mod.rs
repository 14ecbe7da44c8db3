//! The state of a dispatcher that serves one UDP socket: a pool of buffers,
//! the queue of datagrams that wait to be sent, and the decisions between the
//! events of the socket. The socket itself and the event loop belong to the
//! caller, which performs what the dispatcher decides.

pub mod buffer;
pub mod dispatcher;
pub mod provider;
