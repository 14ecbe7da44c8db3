//! The peer wire protocol as a `PeerProtocol`.

use crate::peer::message::extended::{
    handshake_of, ExtendedMessage, EXTENDED_MESSAGE_HANDSHAKE_ID,
};
use crate::peer::message::{
    frame, lemma_payload_len, needed, parsed, MessageModel, PeerWireProtocolMessage,
};
use crate::peer::protocol::extension::{told, PeerExtensionProtocol};
use crate::peer::protocol::{NestedPeerProtocol, PeerProtocol};
use crate::util::error::FramingError;
use vstd::prelude::*;

verus! {

/// Greatest payload that a connection accepts unless told otherwise: a block
/// of 16 KiB with the head of a piece message, and room to spare.
pub const DEFAULT_MAX_PAYLOAD: usize = 24 * 1024;

/// Protocol for peer wire messages.
#[derive(Copy, Clone, Debug, PartialEq, Eq, Structural)]
pub struct PeerWireProtocol {
    pub max_payload: usize,
}

impl PeerWireProtocol {
    /// Create a new `PeerWireProtocol` that accepts payloads of up to
    /// `max_payload` bytes.
    pub fn new(max_payload: usize) -> (r: PeerWireProtocol)
        ensures
            r.max_payload == max_payload,
    {
        PeerWireProtocol { max_payload }
    }

    /// The greatest payload accepted.
    pub fn max_payload(&self) -> (r: usize)
        ensures
            r == self.max_payload,
    {
        self.max_payload
    }
}

impl PeerProtocol for PeerWireProtocol {
    type ProtocolMessage = PeerWireProtocolMessage;

    type ProtocolMessageError = FramingError;

    /// The length of the frame at the start of `bytes`: see [`needed`].
    fn bytes_needed(&mut self, bytes: &[u8]) -> (r: Result<Option<usize>, FramingError>)
        ensures
            *final(self) == *old(self),
            match needed(bytes@, old(self).max_payload as nat) {
                Ok(Some(n)) => if n <= usize::MAX {
                    r == Ok::<Option<usize>, FramingError>(Some(n as usize))
                } else {
                    r == Err::<Option<usize>, FramingError>(FramingError::BadLength)
                },
                Ok(None) => r == Ok::<Option<usize>, FramingError>(None),
                Err(e) => r == Err::<Option<usize>, FramingError>(e),
            },
    {
        PeerWireProtocolMessage::bytes_needed(bytes, self.max_payload)
    }

    /// The message at the start of `bytes`. Input that ends before the frame
    /// does is the outer error; a payload at fault is the inner one.
    fn parse_bytes(&mut self, bytes: &[u8]) -> (r: Result<
        Result<PeerWireProtocolMessage, FramingError>,
        FramingError,
    >)
        ensures
            *final(self) == *old(self),
            match r {
                Ok(Ok(message)) => exists|n: usize| parsed(bytes@, Ok((message, n))),
                Ok(Err(fault)) => fault != FramingError::ShortRead && parsed(bytes@, Err(fault)),
                Err(e) => e == FramingError::ShortRead && parsed(bytes@, Err(e)),
            },
    {
        match PeerWireProtocolMessage::parse_bytes(bytes) {
            Ok((message, n)) => {
                proof {
                    assert(parsed(bytes@, Ok((message, n))));
                }
                Ok(Ok(message))
            },
            Err(FramingError::ShortRead) => Err(FramingError::ShortRead),
            Err(fault) => Ok(Err(fault)),
        }
    }

    /// Writes the frame of the message `item`. An item that is itself an
    /// error is an invalid value; nothing is written for it.
    fn write_bytes(
        &mut self,
        item: &Result<PeerWireProtocolMessage, FramingError>,
        writer: &mut Vec<u8>,
    ) -> (r: Result<usize, FramingError>)
        ensures
            *final(self) == *old(self),
            final(writer)@ == old(writer)@ + (match *item {
                Ok(message) => if message.wf() {
                    frame(message@)
                } else {
                    Seq::empty()
                },
                Err(_) => Seq::empty(),
            }),
            match *item {
                Ok(message) => if message.wf() {
                    r == Ok::<usize, FramingError>(frame(message@).len() as usize)
                } else {
                    r == Err::<usize, FramingError>(FramingError::BadLength)
                },
                Err(_) => r == Err::<usize, FramingError>(FramingError::InvalidValue),
            },
    {
        match item {
            Ok(message) => {
                proof {
                    lemma_payload_len(message@);
                }
                message.write_bytes(writer)
            },
            Err(_) => Err(FramingError::InvalidValue),
        }
    }

    /// The length of the frame of the message `message`: what `write_bytes`
    /// writes and returns for it.
    fn message_size(&mut self, message: &Result<PeerWireProtocolMessage, FramingError>) -> (r:
        Result<usize, FramingError>)
        ensures
            *final(self) == *old(self),
            match *message {
                Ok(m) => if m.wf() {
                    r == Ok::<usize, FramingError>(frame(m@).len() as usize)
                } else {
                    r == Err::<usize, FramingError>(FramingError::BadLength)
                },
                Err(_) => r == Err::<usize, FramingError>(FramingError::InvalidValue),
            },
    {
        match message {
            Ok(m) => m.message_size(),
            Err(_) => Err(FramingError::InvalidValue),
        }
    }
}

/// The handshake of the extension protocol that a message carries, if it
/// carries one: the message is one of an extension, has the id 0, and its
/// body reads as a handshake.
pub open spec fn carried_handshake(message: MessageModel) -> Option<Seq<(Seq<u8>, u8)>> {
    match message {
        MessageModel::Extension(sub_id, body) => if sub_id == EXTENDED_MESSAGE_HANDSHAKE_ID {
            match handshake_of(body) {
                Ok(pairs) => Some(pairs),
                Err(_) => None,
            }
        } else {
            None
        },
        _ => None,
    }
}

/// The handshake of the extension protocol that `message` carries.
fn handshake_in(message: &PeerWireProtocolMessage) -> (r: Option<ExtendedMessage>)
    ensures
        match carried_handshake(message@) {
            Some(pairs) => r matches Some(handshake) && handshake@ == pairs,
            None => r is None,
        },
{
    match message {
        PeerWireProtocolMessage::Extension(extension) => {
            if extension.sub_id == EXTENDED_MESSAGE_HANDSHAKE_ID {
                match ExtendedMessage::from_bytes(extension.body.as_slice()) {
                    Ok(handshake) => Some(handshake),
                    Err(_) => None,
                }
            } else {
                None
            }
        },
        _ => None,
    }
}

/// Protocol for peer wire messages on a connection with extensions. Every
/// handshake of the extension protocol that passes is noted before the next
/// frame is read or written, so that the ids of later messages are known.
#[derive(Debug)]
pub struct ExtendedWireProtocol {
    pub wire: PeerWireProtocol,
    pub extension: PeerExtensionProtocol,
}

impl ExtendedWireProtocol {
    /// Create a new `ExtendedWireProtocol` that accepts payloads of up to
    /// `max_payload` bytes, on a connection on which no handshake has passed.
    pub fn new(max_payload: usize) -> (r: ExtendedWireProtocol)
        ensures
            r.wire.max_payload == max_payload,
            r.extension.our_extended_msg is None,
            r.extension.their_extended_msg is None,
    {
        ExtendedWireProtocol {
            wire: PeerWireProtocol::new(max_payload),
            extension: PeerExtensionProtocol::new(),
        }
    }
}

impl PeerProtocol for ExtendedWireProtocol {
    type ProtocolMessage = PeerWireProtocolMessage;

    type ProtocolMessageError = FramingError;

    /// The length of the frame at the start of `bytes`: see [`needed`].
    fn bytes_needed(&mut self, bytes: &[u8]) -> (r: Result<Option<usize>, FramingError>)
        ensures
            final(self).wire == old(self).wire,
            final(self).extension == old(self).extension,
            match needed(bytes@, old(self).wire.max_payload as nat) {
                Ok(Some(n)) => if n <= usize::MAX {
                    r == Ok::<Option<usize>, FramingError>(Some(n as usize))
                } else {
                    r == Err::<Option<usize>, FramingError>(FramingError::BadLength)
                },
                Ok(None) => r == Ok::<Option<usize>, FramingError>(None),
                Err(e) => r == Err::<Option<usize>, FramingError>(e),
            },
    {
        self.wire.bytes_needed(bytes)
    }

    /// The message at the start of `bytes`, as the wire protocol reads it.
    /// Where it carries the peer's handshake of the extension protocol, the
    /// handshake is noted: from then on the ids that it tells are the ones to
    /// send under. Any other message leaves what is known as it was.
    fn parse_bytes(&mut self, bytes: &[u8]) -> (r: Result<
        Result<PeerWireProtocolMessage, FramingError>,
        FramingError,
    >)
        ensures
            final(self).wire == old(self).wire,
            final(self).extension.our_extended_msg == old(self).extension.our_extended_msg,
            match r {
                Ok(Ok(message)) => {
                    &&& exists|n: usize| parsed(bytes@, Ok((message, n)))
                    &&& match carried_handshake(message@) {
                        Some(pairs) => told(final(self).extension.their_extended_msg) == pairs
                            && final(self).extension.their_extended_msg is Some,
                        None => final(self).extension == old(self).extension,
                    }
                },
                Ok(Err(fault)) => fault != FramingError::ShortRead && parsed(bytes@, Err(fault))
                    && final(self).extension == old(self).extension,
                Err(e) => e == FramingError::ShortRead && parsed(bytes@, Err(e))
                    && final(self).extension == old(self).extension,
            },
    {
        let read = self.wire.parse_bytes(bytes);
        match &read {
            Ok(Ok(message)) => {
                match handshake_in(message) {
                    Some(handshake) => {
                        self.extension.received_message(&handshake);
                    },
                    None => {},
                }
            },
            _ => {},
        }
        read
    }

    /// Writes the frame of the message `item`, as the wire protocol does.
    /// Where a message is written that carries our handshake of the extension
    /// protocol, the handshake is noted: from then on the ids that it tells
    /// are the ones to receive under.
    fn write_bytes(
        &mut self,
        item: &Result<PeerWireProtocolMessage, FramingError>,
        writer: &mut Vec<u8>,
    ) -> (r: Result<usize, FramingError>)
        ensures
            final(self).wire == old(self).wire,
            final(self).extension.their_extended_msg == old(self).extension.their_extended_msg,
            final(writer)@ == old(writer)@ + (match *item {
                Ok(message) => if message.wf() {
                    frame(message@)
                } else {
                    Seq::empty()
                },
                Err(_) => Seq::empty(),
            }),
            match *item {
                Ok(message) => if message.wf() {
                    &&& r == Ok::<usize, FramingError>(frame(message@).len() as usize)
                    &&& match carried_handshake(message@) {
                        Some(pairs) => told(final(self).extension.our_extended_msg) == pairs
                            && final(self).extension.our_extended_msg is Some,
                        None => final(self).extension == old(self).extension,
                    }
                } else {
                    r == Err::<usize, FramingError>(FramingError::BadLength)
                        && final(self).extension == old(self).extension
                },
                Err(_) => r == Err::<usize, FramingError>(FramingError::InvalidValue)
                    && final(self).extension == old(self).extension,
            },
    {
        proof {
            if let Ok(message) = item {
                lemma_payload_len(message@);
            }
        }
        let written = self.wire.write_bytes(item, writer);
        match (item, &written) {
            (Ok(message), Ok(_)) => {
                match handshake_in(message) {
                    Some(handshake) => {
                        self.extension.sent_message(&handshake);
                    },
                    None => {},
                }
            },
            _ => {},
        }
        written
    }

    /// The length of the frame of the message `message`: what `write_bytes`
    /// writes and returns for it.
    fn message_size(&mut self, message: &Result<PeerWireProtocolMessage, FramingError>) -> (r:
        Result<usize, FramingError>)
        ensures
            final(self).wire == old(self).wire,
            final(self).extension == old(self).extension,
            match *message {
                Ok(m) => if m.wf() {
                    r == Ok::<usize, FramingError>(frame(m@).len() as usize)
                } else {
                    r == Err::<usize, FramingError>(FramingError::BadLength)
                },
                Err(_) => r == Err::<usize, FramingError>(FramingError::InvalidValue),
            },
    {
        self.wire.message_size(message)
    }
}

} // verus!
