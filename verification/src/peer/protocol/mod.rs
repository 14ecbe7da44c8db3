//! Generic `PeerProtocol` implementations.

pub mod extension;
pub mod null;
pub mod unit;
pub mod wire;

use crate::util::error::FramingError;
use vstd::prelude::*;

verus! {

/// Trait for implementing a bittorrent protocol message.
///
/// The caller first asks `bytes_needed` how long the message at the start of
/// its buffer is, waits until it has that many bytes, and then hands exactly
/// those to `parse_bytes`.
pub trait PeerProtocol {
    /// Type of message the protocol operates with.
    type ProtocolMessage;

    /// What a message is found to be when it is at fault.
    type ProtocolMessageError;

    /// Total number of bytes needed to parse a complete message. This is not
    /// in addition to what we were given, this is the total number of bytes,
    /// so if the given bytes has length >= needed, then we can parse it.
    ///
    /// If none is returned, it means we need more bytes to determine the
    /// number of bytes needed. If an error is returned, it means the
    /// connection should be dropped, as probably the message exceeded some
    /// maximum length.
    fn bytes_needed(&mut self, bytes: &[u8]) -> Result<Option<usize>, FramingError>;

    /// Parse a `ProtocolMessage` from the given bytes.
    fn parse_bytes(&mut self, bytes: &[u8]) -> Result<
        Result<Self::ProtocolMessage, Self::ProtocolMessageError>,
        FramingError,
    >;

    /// Write a `ProtocolMessage` to the given writer, and return the number
    /// of bytes written. What the writer held stays in front; on an error
    /// nothing is written.
    fn write_bytes(
        &mut self,
        item: &Result<Self::ProtocolMessage, Self::ProtocolMessageError>,
        writer: &mut Vec<u8>,
    ) -> (r: Result<usize, FramingError>)
        ensures
            r matches Ok(n) ==> final(writer)@.len() == old(writer)@.len() + n,
            final(writer)@.subrange(0, old(writer)@.len() as int) == old(writer)@,
            r is Err ==> final(writer)@ == old(writer)@,
    ;

    /// Retrieve how many bytes the message will occupy on the wire.
    fn message_size(
        &mut self,
        message: &Result<Self::ProtocolMessage, Self::ProtocolMessageError>,
    ) -> Result<usize, FramingError>;
}

/// Trait for nested peer protocols to see higher level peer protocol messages.
///
/// This is useful when tracking certain states of a connection that happen at
/// a higher level peer protocol, but which nested peer protocols need to know
/// about atomically (before other messages dependent on that message start
/// coming in, and the nested protocol is expected to handle those).
///
/// Example: extension messages are handled at the wire layer, but the
/// handshake of the extension protocol contains mappings of id to message
/// type that nested extensions need to know about so they can determine what
/// type of message a given id maps to. The handshake has to be passed down to
/// them before messages with those ids start to arrive.
pub trait NestedPeerProtocol<M> {
    /// Notify a nested protocol that we have received the given message.
    fn received_message(&mut self, message: &M) -> usize;

    /// Notify a nested protocol that we have sent the given message.
    fn sent_message(&mut self, message: &M) -> usize;
}

} // verus!
