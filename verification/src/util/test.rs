//! Values for tests: addresses and identifiers that are easy to tell apart.

use crate::util::bt::{NodeId, ShaHash};
use crate::util::net::{IpAddr, Ipv4Addr, Ipv6Addr, SocketAddr, SocketAddrV4};
use vstd::prelude::*;

verus! {

/// Generates a dummy Ipv4 address as an `IpAddr`: 127.0.0.1.
pub fn dummy_ipv4_addr() -> (r: IpAddr)
    ensures
        r matches IpAddr::V4(a) && a@ == seq![127u8, 0u8, 0u8, 1u8],
{
    let v4_addr = Ipv4Addr::new(127, 0, 0, 1);
    IpAddr::V4(v4_addr)
}

/// Generates a dummy ipv6 address as an `IpAddr`: 7f:0:0:1::.
pub fn dummy_ipv6_addr() -> (r: IpAddr)
    ensures
        r matches IpAddr::V6(a) && a@ == crate::util::net::segment_bytes(
            seq![127u16, 0u16, 0u16, 1u16, 0u16, 0u16, 0u16, 0u16],
        ),
{
    let v6_addr = Ipv6Addr::new(127, 0, 0, 1, 0, 0, 0, 0);
    IpAddr::V6(v6_addr)
}

/// Generates a dummy socket address v4 as a `SocketAddr`: 127.0.0.1, port 0.
pub fn dummy_socket_addr_v4() -> (r: SocketAddr)
    ensures
        loopback_at(r, 0),
{
    let v4_addr = Ipv4Addr::new(127, 0, 0, 1);
    let v4_socket = SocketAddrV4::new(v4_addr, 0);
    SocketAddr::V4(v4_socket)
}

/// Whether `addr` is the IPv4 endpoint of 127.0.0.1 and `port`.
pub open spec fn loopback_at(addr: SocketAddr, port: int) -> bool {
    addr matches SocketAddr::V4(a) && a.ip@ == seq![127u8, 0u8, 0u8, 1u8] && a.port == port
}

/// Generates a block of unique ipv4 addresses as Vec<`SocketAddr`>: the
/// address 127.0.0.1 with the ports from 0 up.
pub fn dummy_block_socket_addrs(num_addrs: u16) -> (r: Vec<SocketAddr>)
    ensures
        r@.len() == num_addrs,
        forall|i: int| 0 <= i < num_addrs ==> loopback_at(#[trigger] r@[i], i),
{
    let mut addr_block: Vec<SocketAddr> = Vec::new();
    let mut port: u16 = 0;
    while port < num_addrs
        invariant
            port <= num_addrs,
            addr_block@.len() == port,
            forall|i: int| 0 <= i < port ==> loopback_at(#[trigger] addr_block@[i], i),
        decreases num_addrs - port,
    {
        let ip = Ipv4Addr::new(127, 0, 0, 1);
        let sock_addr = SocketAddrV4::new(ip, port);
        addr_block.push(SocketAddr::V4(sock_addr));
        port += 1;
    }
    addr_block
}

/// Twenty bytes, each `byte`.
pub open spec fn repeated(byte: u8) -> Seq<u8> {
    Seq::new(20, |i: int| byte)
}

/// Generates a dummy node id as a `NodeId`: twenty zero bytes.
pub fn dummy_node_id() -> (r: NodeId)
    ensures
        r@ == repeated(0),
{
    let r = ShaHash::from_array([0u8; 20]);
    assert(r@ =~= repeated(0));
    r
}

/// Generates a block of unique dummy node ids as Vec<`NodeId`>: the id at
/// index `i` is twenty bytes `i`.
pub fn dummy_block_node_ids(num_ids: u8) -> (r: Vec<NodeId>)
    ensures
        r@.len() == num_ids,
        forall|i: int| 0 <= i < num_ids ==> (#[trigger] r@[i])@ == repeated(i as u8),
{
    let mut id_block: Vec<NodeId> = Vec::new();
    let mut repeat: u8 = 0;
    while repeat < num_ids
        invariant
            repeat <= num_ids,
            id_block@.len() == repeat,
            forall|i: int| 0 <= i < repeat ==> (#[trigger] id_block@[i])@ == repeated(i as u8),
        decreases num_ids - repeat,
    {
        let mut id = [0u8; 20];
        let mut k: usize = 0;
        while k < 20
            invariant
                k <= 20,
                forall|j: int| 0 <= j < k ==> id@[j] == repeat,
            decreases 20 - k,
        {
            id[k] = repeat;
            k += 1;
        }
        let node_id = ShaHash::from_array(id);
        assert(node_id@ =~= repeated(repeat));
        id_block.push(node_id);
        repeat += 1;
    }
    id_block
}

} // verus!
