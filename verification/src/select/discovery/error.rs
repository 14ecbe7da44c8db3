//! Module for discovery error types.

use crate::util::bt::{InfoHash, PeerId};
use crate::util::net::SocketAddr;
use vstd::prelude::*;

verus! {

/// What is known of a peer: where it is, what it calls itself, and the
/// torrent that it was met for.
#[derive(Copy, Clone, Debug, PartialEq, Eq, Hash)]
pub struct PeerInfo {
    pub addr: SocketAddr,
    pub peer_id: PeerId,
    pub hash: InfoHash,
}

impl PeerInfo {
    /// Create a new `PeerInfo`.
    pub fn new(addr: SocketAddr, peer_id: PeerId, hash: InfoHash) -> (r: PeerInfo)
        ensures
            r == (PeerInfo { addr, peer_id, hash }),
    {
        PeerInfo { addr, peer_id, hash }
    }

    /// Where the peer is.
    pub fn addr(&self) -> (r: SocketAddr)
        ensures
            r == self.addr,
    {
        self.addr
    }

    /// What the peer calls itself.
    pub fn peer_id(&self) -> (r: PeerId)
        ensures
            r == self.peer_id,
    {
        self.peer_id
    }

    /// The torrent that the peer was met for.
    pub fn hash(&self) -> (r: InfoHash)
        ensures
            r == self.hash,
    {
        self.hash
    }
}

/// Why discovery refused something.
#[derive(Clone, Debug, PartialEq, Eq)]
pub enum DiscoveryError {
    /// A peer sent a message that violates the protocol. Its connection has
    /// to be dropped.
    InvalidMessage { info: PeerInfo, message: String },
    /// The metainfo with this hash has already been added.
    InvalidMetainfoExists { hash: InfoHash },
    /// The metainfo with this hash was not added before.
    InvalidMetainfoNotExists { hash: InfoHash },
}

} // verus!
