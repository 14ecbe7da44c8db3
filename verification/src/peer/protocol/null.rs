//! The protocol that has no messages.

use crate::peer::protocol::{NestedPeerProtocol, PeerProtocol};
use crate::util::error::FramingError;
use vstd::prelude::*;

verus! {

/// The message of the protocol without messages. The protocol never hands
/// one out and never writes one.
#[derive(Copy, Clone, Debug, PartialEq, Eq, Structural)]
pub struct NullProtocolMessage;

/// Protocol that never parses or writes a message. It stands where an
/// extension is not wanted: whatever arrives for it is refused.
#[derive(Copy, Clone, Debug, PartialEq, Eq, Structural)]
pub struct NullProtocol;

impl NullProtocol {
    /// Create a new `NullProtocol`.
    pub fn new() -> (r: NullProtocol) {
        NullProtocol
    }
}

impl PeerProtocol for NullProtocol {
    type ProtocolMessage = NullProtocolMessage;

    type ProtocolMessageError = FramingError;

    /// No bytes are ever needed: the message has none.
    fn bytes_needed(&mut self, bytes: &[u8]) -> (r: Result<Option<usize>, FramingError>)
        ensures
            r == Ok::<Option<usize>, FramingError>(Some(0)),
    {
        Ok(Some(0))
    }

    /// Nothing parses: every input is an invalid value.
    fn parse_bytes(&mut self, bytes: &[u8]) -> (r: Result<
        Result<NullProtocolMessage, FramingError>,
        FramingError,
    >)
        ensures
            r == Err::<Result<NullProtocolMessage, FramingError>, FramingError>(
                FramingError::InvalidValue,
            ),
    {
        Err(FramingError::InvalidValue)
    }

    /// Nothing is written: there is no message to write.
    fn write_bytes(
        &mut self,
        item: &Result<NullProtocolMessage, FramingError>,
        writer: &mut Vec<u8>,
    ) -> (r: Result<usize, FramingError>)
        ensures
            r == Err::<usize, FramingError>(FramingError::InvalidValue),
            final(writer)@ == old(writer)@,
    {
        Err(FramingError::InvalidValue)
    }

    /// No message, no size.
    fn message_size(&mut self, message: &Result<NullProtocolMessage, FramingError>) -> (r: Result<
        usize,
        FramingError,
    >)
        ensures
            r == Ok::<usize, FramingError>(0),
    {
        Ok(0)
    }
}

impl<M> NestedPeerProtocol<M> for NullProtocol {
    /// Takes no notice.
    fn received_message(&mut self, message: &M) -> (r: usize)
        ensures
            r == 0,
    {
        0
    }

    /// Takes no notice.
    fn sent_message(&mut self, message: &M) -> (r: usize)
        ensures
            r == 0,
    {
        0
    }
}

} // verus!
