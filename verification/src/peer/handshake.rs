//! The handshake that precedes the framed messages of a connection.
//!
//! It is 68 bytes: the length 19, the nineteen bytes `BitTorrent protocol`,
//! eight reserved bytes in which extensions are announced, the info hash of
//! the torrent and the id of the peer.

use crate::util::bt::{InfoHash, PeerId, ShaHash};
use crate::util::convert::{extend_bytes, lemma_concat_parts};
use crate::util::error::FramingError;
use vstd::prelude::*;
use vstd::slice::slice_subrange;

verus! {

/// Length of the name of the protocol.
pub const PROTOCOL_LEN: u8 = 19;

/// The name of the protocol: `BitTorrent protocol`.
pub const PROTOCOL: [u8; 19] = [
    0x42,
    0x69,
    0x74,
    0x54,
    0x6f,
    0x72,
    0x72,
    0x65,
    0x6e,
    0x74,
    0x20,
    0x70,
    0x72,
    0x6f,
    0x74,
    0x6f,
    0x63,
    0x6f,
    0x6c,
];

/// Length of the reserved bytes.
pub const RESERVED_LEN: usize = 8;

/// Length of a handshake.
pub const HANDSHAKE_LEN: usize = 68;

/// The handshake of one side of a connection.
#[derive(Copy, Clone, Debug, PartialEq, Eq, Hash)]
pub struct HandshakeMessage {
    pub reserved: [u8; 8],
    pub info_hash: InfoHash,
    pub peer_id: PeerId,
}

/// What every handshake starts with: the length of the name of the protocol
/// and the name.
pub open spec fn preamble() -> Seq<u8> {
    seq![PROTOCOL_LEN] + PROTOCOL@
}

impl HandshakeMessage {
    /// The handshake on the wire.
    pub open spec fn wire(self) -> Seq<u8> {
        preamble() + self.reserved@ + self.info_hash@ + self.peer_id@
    }

    /// Create a new `HandshakeMessage`.
    pub fn new(reserved: [u8; 8], info_hash: InfoHash, peer_id: PeerId) -> (r: HandshakeMessage)
        ensures
            r == (HandshakeMessage { reserved, info_hash, peer_id }),
    {
        HandshakeMessage { reserved, info_hash, peer_id }
    }

    /// The reserved bytes.
    pub fn reserved(&self) -> (r: [u8; 8])
        ensures
            r == self.reserved,
    {
        self.reserved
    }

    /// The info hash of the torrent that the connection is for.
    pub fn info_hash(&self) -> (r: InfoHash)
        ensures
            r == self.info_hash,
    {
        self.info_hash
    }

    /// The id of the peer.
    pub fn peer_id(&self) -> (r: PeerId)
        ensures
            r == self.peer_id,
    {
        self.peer_id
    }

    /// Appends the handshake.
    pub fn write_bytes(&self, out: &mut Vec<u8>)
        ensures
            final(out)@ == old(out)@ + self.wire(),
    {
        out.push(PROTOCOL_LEN);
        extend_bytes(out, PROTOCOL.as_slice());
        extend_bytes(out, self.reserved.as_slice());
        extend_bytes(out, self.info_hash.as_bytes());
        extend_bytes(out, self.peer_id.as_bytes());
        assert(out@ =~= old(out)@ + self.wire());
    }

    /// Reads the handshake from the start of `bytes`.
    pub fn from_bytes(bytes: &[u8]) -> (r: Result<(HandshakeMessage, usize), FramingError>)
        ensures
            handshake_parsed(bytes@, r),
    {
        if bytes.len() < HANDSHAKE_LEN {
            return Err(FramingError::ShortRead);
        }
        if !crate::util::convert::bytes_equal(slice_subrange(bytes, 1, 20), PROTOCOL.as_slice())
            || bytes[0] != PROTOCOL_LEN {
            proof {
                if bytes@.subrange(0, 20) == preamble() {
                    assert(bytes@[0] == preamble()[0]);
                    assert(bytes@.subrange(1, 20) =~= PROTOCOL@) by {
                        assert forall|i: int| 0 <= i < 19 implies bytes@.subrange(1, 20)[i]
                            == PROTOCOL@[i] by {
                            assert(bytes@.subrange(0, 20)[i + 1] == preamble()[i + 1]);
                        }
                    }
                }
            }
            return Err(FramingError::BadMagic);
        }
        let mut reserved = [0u8; 8];
        let mut i: usize = 0;
        while i < 8
            invariant
                i <= 8,
                bytes.len() >= 68,
                forall|j: int| 0 <= j < i ==> reserved@[j] == bytes@[20 + j],
            decreases 8 - i,
        {
            reserved[i] = bytes[20 + i];
            i += 1;
        }
        let info_hash = match ShaHash::from_hash(slice_subrange(bytes, 28, 48)) {
            Ok(hash) => hash,
            Err(_) => {
                return Err(FramingError::ShortRead);
            },
        };
        let peer_id = match ShaHash::from_hash(slice_subrange(bytes, 48, 68)) {
            Ok(id) => id,
            Err(_) => {
                return Err(FramingError::ShortRead);
            },
        };
        let message = HandshakeMessage { reserved, info_hash, peer_id };
        proof {
            assert(bytes@.subrange(0, 20) =~= preamble());
            assert(message.wire() =~= bytes@.subrange(0, 68));
        }
        Ok((message, HANDSHAKE_LEN))
    }
}

/// What reading a handshake from `s` gives. Fewer than 68 bytes are a short
/// read; another start than the length and name of the protocol is a bad
/// magic; otherwise the result is the handshake whose bytes the first 68 of
/// `s` are, and 68.
pub open spec fn handshake_parsed(
    s: Seq<u8>,
    r: Result<(HandshakeMessage, usize), FramingError>,
) -> bool {
    if s.len() < 68 {
        r == Err::<(HandshakeMessage, usize), FramingError>(FramingError::ShortRead)
    } else if s.subrange(0, 20) != preamble() {
        r == Err::<(HandshakeMessage, usize), FramingError>(FramingError::BadMagic)
    } else {
        &&& r matches Ok((message, n))
        &&& n == 68
        &&& message.wire() == s.subrange(0, 68)
    }
}

/// Reading the bytes of a handshake gives the handshake back: whatever meets
/// [`handshake_parsed`] on its bytes is the handshake, and 68.
pub proof fn lemma_handshake_round_trip(
    message: HandshakeMessage,
    r: Result<(HandshakeMessage, usize), FramingError>,
)
    requires
        handshake_parsed(message.wire(), r),
    ensures
        r == Ok::<(HandshakeMessage, usize), FramingError>((message, 68)),
{
    let s = message.wire();
    assert(s.len() == 68);
    assert(s.subrange(0, 20) =~= preamble());
    let (read, n) = r->Ok_0;
    assert(s.subrange(0, 68) =~= s);
    lemma_concat_parts(
        preamble() + read.reserved@ + read.info_hash@,
        read.peer_id@,
        preamble() + message.reserved@ + message.info_hash@,
        message.peer_id@,
    );
    lemma_concat_parts(
        preamble() + read.reserved@,
        read.info_hash@,
        preamble() + message.reserved@,
        message.info_hash@,
    );
    lemma_concat_parts(preamble(), read.reserved@, preamble(), message.reserved@);
    assert(read.reserved =~= message.reserved);
    assert(read.info_hash.hash =~= message.info_hash.hash);
    assert(read.peer_id.hash =~= message.peer_id.hash);
}

} // verus!
