//! The protocol whose only message is empty.

use crate::peer::protocol::{NestedPeerProtocol, PeerProtocol};
use crate::util::error::FramingError;
use vstd::prelude::*;

verus! {

/// Protocol whose one message, `()`, takes no bytes on the wire.
#[derive(Copy, Clone, Debug, PartialEq, Eq, Structural)]
pub struct UnitProtocol;

impl UnitProtocol {
    /// Create a new `UnitProtocol`.
    pub fn new() -> (r: UnitProtocol) {
        UnitProtocol
    }
}

impl PeerProtocol for UnitProtocol {
    type ProtocolMessage = ();

    type ProtocolMessageError = FramingError;

    /// The message needs no bytes.
    fn bytes_needed(&mut self, bytes: &[u8]) -> (r: Result<Option<usize>, FramingError>)
        ensures
            r == Ok::<Option<usize>, FramingError>(Some(0)),
    {
        Ok(Some(0))
    }

    /// Every input holds the message: it is read from no bytes.
    fn parse_bytes(&mut self, bytes: &[u8]) -> (r: Result<Result<(), FramingError>, FramingError>)
        ensures
            r == Ok::<Result<(), FramingError>, FramingError>(Ok(())),
    {
        Ok(Ok(()))
    }

    /// Writes nothing.
    fn write_bytes(&mut self, item: &Result<(), FramingError>, writer: &mut Vec<u8>) -> (r: Result<
        usize,
        FramingError,
    >)
        ensures
            r == Ok::<usize, FramingError>(0),
            final(writer)@ == old(writer)@,
    {
        Ok(0)
    }

    /// The message takes no bytes.
    fn message_size(&mut self, message: &Result<(), FramingError>) -> (r: Result<
        usize,
        FramingError,
    >)
        ensures
            r == Ok::<usize, FramingError>(0),
    {
        Ok(0)
    }
}

impl<M> NestedPeerProtocol<M> for UnitProtocol {
    /// Takes no notice.
    fn received_message(&mut self, message: &M) -> (r: usize)
        ensures
            r == 0,
    {
        0
    }

    /// Takes no notice.
    fn sent_message(&mut self, message: &M) -> (r: usize)
        ensures
            r == 0,
    {
        0
    }
}

} // verus!
