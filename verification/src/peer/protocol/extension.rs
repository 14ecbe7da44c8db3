//! What a connection knows of the extensions of both sides.
//!
//! Each side tells the other in its handshake under which ids it wants to
//! receive the messages of which extensions. The messages that arrive carry
//! the ids that we told; the messages that we send must carry the ids that
//! the peer told. The handshakes therefore have to be seen before the next
//! frame is read or written.

use crate::peer::message::extended::{id_of, name_of, ExtendedMessage};
use crate::peer::protocol::NestedPeerProtocol;
use vstd::prelude::*;

verus! {

/// The handshakes that were sent and received on one connection.
#[derive(Debug)]
pub struct PeerExtensionProtocol {
    pub our_extended_msg: Option<ExtendedMessage>,
    pub their_extended_msg: Option<ExtendedMessage>,
}

/// The pairs of a handshake that may not have occurred yet.
pub open spec fn told(message: Option<ExtendedMessage>) -> Seq<(Seq<u8>, u8)> {
    match message {
        Some(m) => m@,
        None => Seq::empty(),
    }
}

/// A copy of a handshake.
fn copy_handshake(message: &ExtendedMessage) -> (r: ExtendedMessage)
    ensures
        r@ == message@,
{
    let mut copy = ExtendedMessage::new();
    let mut i: usize = 0;
    assert(message@.subrange(0, 0) =~= Seq::<(Seq<u8>, u8)>::empty());
    while i < message.id_map.len()
        invariant
            i <= message.id_map.len(),
            copy@ == message@.subrange(0, i as int),
        decreases message.id_map.len() - i,
    {
        copy.insert(message.id_map[i].0.as_slice(), message.id_map[i].1);
        assert(copy@ =~= message@.subrange(0, i + 1));
        i += 1;
    }
    assert(message@.subrange(0, message.id_map.len() as int) =~= message@);
    copy
}

impl PeerExtensionProtocol {
    /// The state of a connection on which no handshake has passed.
    pub fn new() -> (r: PeerExtensionProtocol)
        ensures
            r.our_extended_msg is None,
            r.their_extended_msg is None,
    {
        PeerExtensionProtocol { our_extended_msg: None, their_extended_msg: None }
    }

    /// The extension whose message arrives under `sub_id`: the name that our
    /// handshake gave this id. Before our handshake no id has a name.
    pub fn received_name(&self, sub_id: u8) -> (r: Option<&[u8]>)
        ensures
            r is Some <==> name_of(told(self.our_extended_msg), sub_id) is Some,
            r matches Some(name) ==> name_of(told(self.our_extended_msg), sub_id) == Some(name@),
    {
        match &self.our_extended_msg {
            Some(message) => message.query_name(sub_id),
            None => None,
        }
    }

    /// The id under which a message of the extension `name` is to be sent:
    /// the one that the peer's handshake gave it. Before the peer's handshake
    /// no extension has an id.
    pub fn id_to_send(&self, name: &[u8]) -> (r: Option<u8>)
        ensures
            r == id_of(told(self.their_extended_msg), name@),
    {
        match &self.their_extended_msg {
            Some(message) => message.query_id(name),
            None => None,
        }
    }
}

impl NestedPeerProtocol<ExtendedMessage> for PeerExtensionProtocol {
    /// Takes note of the peer's handshake: from now on messages are sent
    /// under the ids that it tells. Returns 0, the bytes that this costs on
    /// the wire.
    fn received_message(&mut self, message: &ExtendedMessage) -> (r: usize)
        ensures
            r == 0,
            told(final(self).their_extended_msg) == message@,
            final(self).their_extended_msg is Some,
            final(self).our_extended_msg == old(self).our_extended_msg,
    {
        self.their_extended_msg = Some(copy_handshake(message));
        0
    }

    /// Takes note of our handshake: from now on messages are received under
    /// the ids that it tells. Returns 0, the bytes that this costs on the
    /// wire.
    fn sent_message(&mut self, message: &ExtendedMessage) -> (r: usize)
        ensures
            r == 0,
            told(final(self).our_extended_msg) == message@,
            final(self).our_extended_msg is Some,
            final(self).their_extended_msg == old(self).their_extended_msg,
    {
        self.our_extended_msg = Some(copy_handshake(message));
        0
    }
}

} // verus!
