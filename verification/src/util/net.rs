//! Addresses and endpoints, and their compact forms on the wire.
//!
//! An IPv4 endpoint in compact form is six bytes: the four bytes of the
//! address, then the port most significant byte first. An IPv6 endpoint is
//! eighteen: sixteen of address and two of port.

use crate::util::convert::{
    be_bytes,
    be_value,
    lemma_be_bytes_len,
    lemma_be_bytes_of_value,
    lemma_be_value_of_bytes,
    lemma_radix_pow_values,
    read_u16_be,
    write_u16_be,
    extend_bytes,
};
use vstd::prelude::*;

verus! {

/// Length of a compact IPv4 endpoint.
pub const COMPACT_V4_LEN: usize = 6;

/// Length of a compact IPv6 endpoint.
pub const COMPACT_V6_LEN: usize = 18;

/// An IPv4 address: four bytes in network order.
#[derive(Copy, Clone, Debug, PartialEq, Eq, Hash)]
pub struct Ipv4Addr {
    pub octets: [u8; 4],
}

/// An IPv6 address: sixteen bytes in network order.
#[derive(Copy, Clone, Debug, PartialEq, Eq, Hash)]
pub struct Ipv6Addr {
    pub octets: [u8; 16],
}

/// An address of either family.
#[derive(Copy, Clone, Debug, PartialEq, Eq, Hash)]
pub enum IpAddr {
    V4(Ipv4Addr),
    V6(Ipv6Addr),
}

/// An IPv4 address and a port.
#[derive(Copy, Clone, Debug, PartialEq, Eq, Hash)]
pub struct SocketAddrV4 {
    pub ip: Ipv4Addr,
    pub port: u16,
}

/// An IPv6 address and a port.
#[derive(Copy, Clone, Debug, PartialEq, Eq, Hash)]
pub struct SocketAddrV6 {
    pub ip: Ipv6Addr,
    pub port: u16,
}

/// An endpoint of either family.
#[derive(Copy, Clone, Debug, PartialEq, Eq, Hash)]
pub enum SocketAddr {
    V4(SocketAddrV4),
    V6(SocketAddrV6),
}

impl View for Ipv4Addr {
    type V = Seq<u8>;

    open spec fn view(&self) -> Seq<u8> {
        self.octets@
    }
}

impl View for Ipv6Addr {
    type V = Seq<u8>;

    open spec fn view(&self) -> Seq<u8> {
        self.octets@
    }
}

/// The sixteen bytes of an address of eight segments, each segment most
/// significant byte first.
pub open spec fn segment_bytes(segments: Seq<u16>) -> Seq<u8> {
    Seq::new(
        16,
        |i: int|
            if i % 2 == 0 {
                (segments[i / 2] / 256) as u8
            } else {
                (segments[i / 2] % 256) as u8
            },
    )
}

impl Ipv4Addr {
    /// The address `a.b.c.d`.
    pub fn new(a: u8, b: u8, c: u8, d: u8) -> (r: Ipv4Addr)
        ensures
            r@ == seq![a, b, c, d],
    {
        let r = Ipv4Addr { octets: [a, b, c, d] };
        assert(r@ =~= seq![a, b, c, d]);
        r
    }

    /// The four bytes of the address.
    pub fn octets(&self) -> (r: [u8; 4])
        ensures
            r@ == self@,
    {
        self.octets
    }

    /// Whether every byte is zero: the address that stands for none given.
    pub fn is_unspecified(&self) -> (r: bool)
        ensures
            r == (self@ == seq![0u8, 0u8, 0u8, 0u8]),
    {
        let r = self.octets[0] == 0 && self.octets[1] == 0 && self.octets[2] == 0
            && self.octets[3] == 0;
        proof {
            if r {
                assert(self@ =~= seq![0u8, 0u8, 0u8, 0u8]);
            } else {
                let z = seq![0u8, 0u8, 0u8, 0u8];
                assert(z[0] == 0 && z[1] == 0 && z[2] == 0 && z[3] == 0);
            }
        }
        r
    }
}

impl Ipv6Addr {
    /// The address of the eight segments `a:b:c:d:e:f:g:h`.
    pub fn new(a: u16, b: u16, c: u16, d: u16, e: u16, f: u16, g: u16, h: u16) -> (r: Ipv6Addr)
        ensures
            r@ == segment_bytes(seq![a, b, c, d, e, f, g, h]),
    {
        let r = Ipv6Addr {
            octets: [
                (a / 256) as u8,
                (a % 256) as u8,
                (b / 256) as u8,
                (b % 256) as u8,
                (c / 256) as u8,
                (c % 256) as u8,
                (d / 256) as u8,
                (d % 256) as u8,
                (e / 256) as u8,
                (e % 256) as u8,
                (f / 256) as u8,
                (f % 256) as u8,
                (g / 256) as u8,
                (g % 256) as u8,
                (h / 256) as u8,
                (h % 256) as u8,
            ],
        };
        assert(r@ =~= segment_bytes(seq![a, b, c, d, e, f, g, h]));
        r
    }

    /// The sixteen bytes of the address.
    pub fn octets(&self) -> (r: [u8; 16])
        ensures
            r@ == self@,
    {
        self.octets
    }

    /// Whether every byte is zero: the address that stands for none given.
    pub fn is_unspecified(&self) -> (r: bool)
        ensures
            r == (forall|i: int| 0 <= i < 16 ==> self@[i] == 0),
    {
        let mut i: usize = 0;
        while i < 16
            invariant
                i <= 16,
                forall|j: int| 0 <= j < i ==> self@[j] == 0,
            decreases 16 - i,
        {
            if self.octets[i] != 0 {
                assert(self@[i as int] != 0);
                return false;
            }
            i += 1;
        }
        true
    }
}

impl IpAddr {
    /// Whether the address is an IPv4 one.
    pub fn is_ipv4(&self) -> (r: bool)
        ensures
            r == (*self is V4),
    {
        match self {
            IpAddr::V4(_) => true,
            IpAddr::V6(_) => false,
        }
    }

    /// Whether the address is an IPv6 one.
    pub fn is_ipv6(&self) -> (r: bool)
        ensures
            r == (*self is V6),
    {
        match self {
            IpAddr::V4(_) => false,
            IpAddr::V6(_) => true,
        }
    }
}

impl SocketAddrV4 {
    /// The endpoint of `ip` and `port`.
    pub fn new(ip: Ipv4Addr, port: u16) -> (r: SocketAddrV4)
        ensures
            r == (SocketAddrV4 { ip, port }),
    {
        SocketAddrV4 { ip, port }
    }

    /// The address.
    pub fn ip(&self) -> (r: Ipv4Addr)
        ensures
            r == self.ip,
    {
        self.ip
    }

    /// The port.
    pub fn port(&self) -> (r: u16)
        ensures
            r == self.port,
    {
        self.port
    }

    /// The compact form: address, then port.
    pub open spec fn compact(self) -> Seq<u8> {
        self.ip@ + be_bytes(self.port as nat, 2)
    }

    /// Appends the compact form of the endpoint.
    pub fn write_compact(&self, out: &mut Vec<u8>)
        ensures
            final(out)@ == old(out)@ + self.compact(),
    {
        extend_bytes(out, self.ip.octets.as_slice());
        write_u16_be(out, self.port);
        assert(out@ =~= old(out)@ + self.compact());
    }

    /// The endpoint whose compact form the six bytes at `at` are.
    pub fn read_compact(bytes: &[u8], at: usize) -> (r: Option<SocketAddrV4>)
        ensures
            r is Some <==> at + 6 <= bytes@.len(),
            r matches Some(addr) ==> addr.compact() == bytes@.subrange(at as int, at + 6),
    {
        if at > bytes.len() || bytes.len() - at < 6 {
            return None;
        }
        let ip = Ipv4Addr::new(bytes[at], bytes[at + 1], bytes[at + 2], bytes[at + 3]);
        let port = match read_u16_be(bytes, at + 4) {
            Some(port) => port,
            None => {
                return None;
            },
        };
        let addr = SocketAddrV4 { ip, port };
        proof {
            let field = bytes@.subrange(at + 4, at + 6);
            lemma_be_bytes_of_value(field);
            assert(addr.compact() =~= bytes@.subrange(at as int, at + 6));
        }
        Some(addr)
    }
}

/// An endpoint is what its compact form reads back as.
pub proof fn lemma_compact_v4_round_trip(addr: SocketAddrV4)
    ensures
        addr.compact().len() == 6,
        addr.compact().subrange(0, 4) == addr.ip@,
        be_value(addr.compact().subrange(4, 6)) == addr.port,
{
    lemma_be_bytes_len(addr.port as nat, 2);
    lemma_radix_pow_values();
    lemma_be_value_of_bytes(addr.port as nat, 2);
    assert(addr.compact().subrange(0, 4) =~= addr.ip@);
    assert(addr.compact().subrange(4, 6) =~= be_bytes(addr.port as nat, 2));
}

impl SocketAddrV6 {
    /// The endpoint of `ip` and `port`.
    pub fn new(ip: Ipv6Addr, port: u16) -> (r: SocketAddrV6)
        ensures
            r == (SocketAddrV6 { ip, port }),
    {
        SocketAddrV6 { ip, port }
    }

    /// The address.
    pub fn ip(&self) -> (r: Ipv6Addr)
        ensures
            r == self.ip,
    {
        self.ip
    }

    /// The port.
    pub fn port(&self) -> (r: u16)
        ensures
            r == self.port,
    {
        self.port
    }

    /// The compact form: address, then port.
    pub open spec fn compact(self) -> Seq<u8> {
        self.ip@ + be_bytes(self.port as nat, 2)
    }

    /// Appends the compact form of the endpoint.
    pub fn write_compact(&self, out: &mut Vec<u8>)
        ensures
            final(out)@ == old(out)@ + self.compact(),
    {
        extend_bytes(out, self.ip.octets.as_slice());
        write_u16_be(out, self.port);
        assert(out@ =~= old(out)@ + self.compact());
    }
}

impl SocketAddrV6 {
    /// The endpoint whose compact form the eighteen bytes at `at` are.
    pub fn read_compact(bytes: &[u8], at: usize) -> (r: Option<SocketAddrV6>)
        ensures
            r is Some <==> at + 18 <= bytes@.len(),
            r matches Some(addr) ==> addr.compact() == bytes@.subrange(at as int, at + 18),
    {
        if at > bytes.len() || bytes.len() - at < 18 {
            return None;
        }
        let mut octets = [0u8; 16];
        let mut i: usize = 0;
        while i < 16
            invariant
                i <= 16,
                at + 18 <= bytes.len(),
                forall|j: int| 0 <= j < i ==> octets@[j] == bytes@[at + j],
            decreases 16 - i,
        {
            octets[i] = bytes[at + i];
            i += 1;
        }
        let port = match read_u16_be(bytes, at + 16) {
            Some(port) => port,
            None => {
                return None;
            },
        };
        let addr = SocketAddrV6 { ip: Ipv6Addr { octets }, port };
        proof {
            let field = bytes@.subrange(at + 16, at + 18);
            lemma_be_bytes_of_value(field);
            assert(addr.compact() =~= bytes@.subrange(at as int, at + 18));
        }
        Some(addr)
    }
}

impl SocketAddr {
    /// The port.
    pub fn port(&self) -> (r: u16)
        ensures
            r == (match *self {
                SocketAddr::V4(a) => a.port,
                SocketAddr::V6(a) => a.port,
            }),
    {
        match self {
            SocketAddr::V4(a) => a.port,
            SocketAddr::V6(a) => a.port,
        }
    }

    /// The address.
    pub fn ip(&self) -> (r: IpAddr)
        ensures
            r == (match *self {
                SocketAddr::V4(a) => IpAddr::V4(a.ip),
                SocketAddr::V6(a) => IpAddr::V6(a.ip),
            }),
    {
        match self {
            SocketAddr::V4(a) => IpAddr::V4(a.ip),
            SocketAddr::V6(a) => IpAddr::V6(a.ip),
        }
    }
}

} // verus!
