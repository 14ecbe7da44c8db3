//! Identifiers of the BitTorrent network: all of them twenty bytes.

use crate::util::error::{LengthError, LengthErrorKind};
use vstd::prelude::*;

verus! {

/// Length of a SHA-1 hash in bytes.
pub const SHA_HASH_LEN: usize = 20;

/// Length of a `NodeId`.
pub const NODE_ID_LEN: usize = 20;

/// Length of an `InfoHash`.
pub const INFO_HASH_LEN: usize = 20;

/// Length of a `PeerId`.
pub const PEER_ID_LEN: usize = 20;

/// Twenty bytes: a SHA-1 hash, or an identifier drawn from the same space.
#[derive(Copy, Clone, Debug, PartialEq, Eq, Hash)]
pub struct ShaHash {
    pub hash: [u8; 20],
}

/// Identifier of a node of the distributed hash table.
pub type NodeId = ShaHash;

/// SHA-1 of a torrent's bencoded info dictionary.
pub type InfoHash = ShaHash;

/// Identifier that a peer chooses for itself.
pub type PeerId = ShaHash;

/// SHA-1 of one piece.
pub type PieceHash = ShaHash;

impl View for ShaHash {
    type V = Seq<u8>;

    open spec fn view(&self) -> Seq<u8> {
        self.hash@
    }
}

/// Byte-wise exclusive or of two byte strings of one length.
pub open spec fn xor_bytes(a: Seq<u8>, b: Seq<u8>) -> Seq<u8> {
    Seq::new(a.len(), |i: int| a[i] ^ b[i])
}

impl ShaHash {
    /// The identifier made of the given bytes.
    pub fn from_array(hash: [u8; 20]) -> (r: ShaHash)
        ensures
            r@ == hash@,
    {
        ShaHash { hash }
    }

    /// The identifier made of the given bytes, which must be twenty.
    pub fn from_hash(hash: &[u8]) -> (r: Result<ShaHash, LengthError>)
        ensures
            hash@.len() == 20 ==> r is Ok && r->Ok_0@ == hash@,
            hash@.len() != 20 ==> r == Err::<ShaHash, LengthError>(
                LengthError { kind: LengthErrorKind::LengthExpected, length: 20, index: None },
            ),
    {
        if hash.len() != SHA_HASH_LEN {
            return Err(LengthError::new(LengthErrorKind::LengthExpected, SHA_HASH_LEN));
        }
        let mut my_hash = [0u8; 20];
        let mut i: usize = 0;
        while i < 20
            invariant
                i <= 20,
                hash@.len() == 20,
                forall|j: int| 0 <= j < i ==> my_hash@[j] == hash@[j],
            decreases 20 - i,
        {
            my_hash[i] = hash[i];
            i += 1;
        }
        assert(my_hash@ =~= hash@);
        Ok(ShaHash { hash: my_hash })
    }

    /// Number of bytes of an identifier.
    pub fn len() -> (r: usize)
        ensures
            r == 20,
    {
        SHA_HASH_LEN
    }

    /// Number of bits of an identifier.
    pub fn bits() -> (r: usize)
        ensures
            r == 160,
    {
        SHA_HASH_LEN * 8
    }

    /// The bytes of the identifier.
    pub fn as_bytes(&self) -> (r: &[u8])
        ensures
            r@ == self@,
    {
        self.hash.as_slice()
    }

    /// The bytes of the identifier, by value.
    pub fn into_array(self) -> (r: [u8; 20])
        ensures
            r@ == self@,
    {
        self.hash
    }

    /// Whether two identifiers hold the same bytes.
    pub fn same_as(&self, other: &ShaHash) -> (r: bool)
        ensures
            r == (self@ == other@),
    {
        crate::util::convert::bytes_equal(self.hash.as_slice(), other.hash.as_slice())
    }

    /// The distance between two identifiers as the hash table measures it:
    /// their exclusive or, byte by byte.
    pub fn xor(&self, other: &ShaHash) -> (r: ShaHash)
        ensures
            r@ == xor_bytes(self@, other@),
    {
        let mut out = [0u8; 20];
        let mut i: usize = 0;
        while i < 20
            invariant
                i <= 20,
                forall|j: int| 0 <= j < i ==> out@[j] == self@[j] ^ other@[j],
            decreases 20 - i,
        {
            out[i] = self.hash[i] ^ other.hash[i];
            i += 1;
        }
        assert(out@ =~= xor_bytes(self@, other@));
        ShaHash { hash: out }
    }
}

} // verus!
