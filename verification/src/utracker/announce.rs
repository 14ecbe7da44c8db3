//! Announce requests: what a client tells a tracker about one torrent.
//!
//! The body is `info_hash(20) peer_id(20) downloaded(8) left(8) uploaded(8)
//! event(4) ip(4 or 16) key(4) num_want(4) port(2)`.

use crate::util::bt::{InfoHash, PeerId, ShaHash};
use crate::util::convert::{
    be_bytes,
    extend_bytes,
    field_at,
    lemma_be_bytes_injective,
    lemma_be_bytes_len,
    lemma_be_bytes_of_value,
    lemma_concat_parts,
    lemma_radix_pow_values,
    read_u16_be,
    read_u32_be,
    read_u64_be,
    write_u16_be,
    write_u32_be,
    write_u64_be,
};
use crate::util::error::FramingError;
use crate::util::net::{Ipv4Addr, Ipv6Addr};
use vstd::prelude::*;

verus! {

/// Length of an announce body with an IPv4 address field.
pub const ANNOUNCE_V4_LEN: usize = 82;

/// Length of an announce body with an IPv6 address field.
pub const ANNOUNCE_V6_LEN: usize = 94;

/// What happened at the client since its last announce.
#[derive(Copy, Clone, Debug, PartialEq, Eq, Structural)]
pub enum AnnounceEvent {
    /// Nothing to report; a regular announce.
    NoEvent,
    /// The download is complete.
    Completed,
    /// The download has started.
    Started,
    /// The download has stopped.
    Stopped,
}

impl AnnounceEvent {
    /// The number of the event on the wire.
    pub open spec fn code(self) -> u32 {
        match self {
            AnnounceEvent::NoEvent => 0,
            AnnounceEvent::Completed => 1,
            AnnounceEvent::Started => 2,
            AnnounceEvent::Stopped => 3,
        }
    }

    /// The number of the event on the wire.
    pub fn as_id(&self) -> (r: u32)
        ensures
            r == self.code(),
    {
        match self {
            AnnounceEvent::NoEvent => 0,
            AnnounceEvent::Completed => 1,
            AnnounceEvent::Started => 2,
            AnnounceEvent::Stopped => 3,
        }
    }

    /// The event with the number `id`, where there is one.
    pub fn from_id(id: u32) -> (r: Option<AnnounceEvent>)
        ensures
            r is Some <==> id <= 3,
            r matches Some(e) ==> e.code() == id,
    {
        match id {
            0 => Some(AnnounceEvent::NoEvent),
            1 => Some(AnnounceEvent::Completed),
            2 => Some(AnnounceEvent::Started),
            3 => Some(AnnounceEvent::Stopped),
            _ => None,
        }
    }
}

/// How far the client has come.
#[derive(Copy, Clone, Debug, PartialEq, Eq, Structural)]
pub struct ClientState {
    pub downloaded: u64,
    pub left: u64,
    pub uploaded: u64,
    pub event: AnnounceEvent,
}

impl ClientState {
    /// The state with the given counts of bytes and the given event.
    pub fn new(bytes_downloaded: u64, bytes_left: u64, bytes_uploaded: u64, event: AnnounceEvent) -> (r:
        ClientState)
        ensures
            r == (ClientState {
                downloaded: bytes_downloaded,
                left: bytes_left,
                uploaded: bytes_uploaded,
                event,
            }),
    {
        ClientState {
            downloaded: bytes_downloaded,
            left: bytes_left,
            uploaded: bytes_uploaded,
            event,
        }
    }

    pub fn bytes_downloaded(&self) -> (r: u64)
        ensures
            r == self.downloaded,
    {
        self.downloaded
    }

    pub fn bytes_left(&self) -> (r: u64)
        ensures
            r == self.left,
    {
        self.left
    }

    pub fn bytes_uploaded(&self) -> (r: u64)
        ensures
            r == self.uploaded,
    {
        self.uploaded
    }

    pub fn event(&self) -> (r: AnnounceEvent)
        ensures
            r == self.event,
    {
        self.event
    }
}

/// The address from which the client wants to be reached. An implied address
/// leaves it to the tracker to take the sender's; on the wire it is all zero.
#[derive(Copy, Clone, Debug, PartialEq, Eq)]
pub enum SourceIP {
    ImpliedV4,
    ExplicitV4(Ipv4Addr),
    ImpliedV6,
    ExplicitV6(Ipv6Addr),
}

/// `n` zero bytes.
pub open spec fn zeros(n: nat) -> Seq<u8> {
    Seq::new(n, |i: int| 0u8)
}

impl SourceIP {
    /// Whether the address field is an IPv4 one.
    pub open spec fn spec_is_ipv4(self) -> bool {
        self is ImpliedV4 || self is ExplicitV4
    }

    /// The address field on the wire.
    pub open spec fn wire(self) -> Seq<u8> {
        match self {
            SourceIP::ImpliedV4 => zeros(4),
            SourceIP::ExplicitV4(addr) => addr@,
            SourceIP::ImpliedV6 => zeros(16),
            SourceIP::ExplicitV6(addr) => addr@,
        }
    }

    /// An explicit address is not the all-zero one, which means implied.
    pub open spec fn wf(self) -> bool {
        match self {
            SourceIP::ExplicitV4(addr) => addr@ != zeros(4),
            SourceIP::ExplicitV6(addr) => addr@ != zeros(16),
            _ => true,
        }
    }

    /// Whether the address field is an IPv4 one.
    pub fn is_ipv4(&self) -> (r: bool)
        ensures
            r == self.spec_is_ipv4(),
    {
        match self {
            SourceIP::ImpliedV4 => true,
            SourceIP::ExplicitV4(_) => true,
            _ => false,
        }
    }

    /// Whether the address field is an IPv6 one.
    pub fn is_ipv6(&self) -> (r: bool)
        ensures
            r == !self.spec_is_ipv4(),
    {
        !self.is_ipv4()
    }

    /// Appends the address field.
    pub fn write_bytes(&self, out: &mut Vec<u8>)
        ensures
            final(out)@ == old(out)@ + self.wire(),
    {
        match self {
            SourceIP::ImpliedV4 => {
                let field = [0u8; 4];
                assert(field@ =~= zeros(4));
                extend_bytes(out, field.as_slice());
            },
            SourceIP::ExplicitV4(addr) => {
                extend_bytes(out, addr.octets.as_slice());
            },
            SourceIP::ImpliedV6 => {
                let field = [0u8; 16];
                assert(field@ =~= zeros(16));
                extend_bytes(out, field.as_slice());
            },
            SourceIP::ExplicitV6(addr) => {
                extend_bytes(out, addr.octets.as_slice());
            },
        }
    }

    /// The address that the four bytes at `at` stand for.
    fn read_v4(bytes: &[u8], at: usize) -> (r: SourceIP)
        requires
            at + 4 <= bytes@.len(),
        ensures
            r.wf(),
            r.spec_is_ipv4(),
            r.wire() == bytes@.subrange(at as int, at + 4),
    {
        let addr = Ipv4Addr::new(bytes[at], bytes[at + 1], bytes[at + 2], bytes[at + 3]);
        assert(addr@ =~= bytes@.subrange(at as int, at + 4));
        assert(zeros(4) =~= seq![0u8, 0u8, 0u8, 0u8]);
        if addr.is_unspecified() {
            SourceIP::ImpliedV4
        } else {
            SourceIP::ExplicitV4(addr)
        }
    }

    /// The address that the sixteen bytes at `at` stand for.
    fn read_v6(bytes: &[u8], at: usize) -> (r: SourceIP)
        requires
            at + 16 <= bytes@.len(),
        ensures
            r.wf(),
            !r.spec_is_ipv4(),
            r.wire() == bytes@.subrange(at as int, at + 16),
    {
        let mut octets = [0u8; 16];
        let mut i: usize = 0;
        while i < 16
            invariant
                i <= 16,
                at + 16 <= bytes.len(),
                forall|j: int| 0 <= j < i ==> octets@[j] == bytes@[at + j],
            decreases 16 - i,
        {
            octets[i] = bytes[at + i];
            i += 1;
        }
        let addr = Ipv6Addr { octets };
        assert(addr@ =~= bytes@.subrange(at as int, at + 16));
        if addr.is_unspecified() {
            assert(addr@ =~= zeros(16));
            SourceIP::ImpliedV6
        } else {
            assert(addr@ != zeros(16)) by {
                if addr@ == zeros(16) {
                    assert(forall|i: int| 0 <= i < 16 ==> addr@[i] == zeros(16)[i]);
                }
            }
            SourceIP::ExplicitV6(addr)
        }
    }
}

/// How many peers the client would like to hear of.
#[derive(Copy, Clone, Debug, PartialEq, Eq, Structural)]
pub enum DesiredPeers {
    /// As many as the tracker sees fit; on the wire, -1.
    Default,
    /// This many.
    Specified(i32),
}

/// The 32 bits of `n` in two's complement, as an unsigned number.
pub open spec fn twos_complement(n: i32) -> u32 {
    if n >= 0 {
        n as u32
    } else {
        (n + 0x1_0000_0000) as u32
    }
}

impl DesiredPeers {
    /// The field on the wire, as an unsigned number.
    pub open spec fn code(self) -> u32 {
        match self {
            DesiredPeers::Default => 0xffff_ffff,
            DesiredPeers::Specified(n) => twos_complement(n),
        }
    }

    /// A specified number is not -1, which means the default.
    pub open spec fn wf(self) -> bool {
        match self {
            DesiredPeers::Default => true,
            DesiredPeers::Specified(n) => n != -1,
        }
    }

    /// The field on the wire, as an unsigned number.
    pub fn as_id(&self) -> (r: u32)
        ensures
            r == self.code(),
    {
        match self {
            DesiredPeers::Default => 0xffff_ffff,
            DesiredPeers::Specified(n) => {
                if *n >= 0 {
                    *n as u32
                } else {
                    (*n as i64 + 0x1_0000_0000) as u32
                }
            },
        }
    }

    /// The wish that the field `id` stands for.
    pub fn from_id(id: u32) -> (r: DesiredPeers)
        ensures
            r.wf(),
            r.code() == id,
    {
        if id == 0xffff_ffff {
            DesiredPeers::Default
        } else if id <= 0x7fff_ffff {
            DesiredPeers::Specified(id as i32)
        } else {
            DesiredPeers::Specified((id as i64 - 0x1_0000_0000) as i32)
        }
    }
}

/// An announce request.
#[derive(Copy, Clone, Debug, PartialEq, Eq)]
pub struct AnnounceRequest {
    pub info_hash: InfoHash,
    pub peer_id: PeerId,
    pub state: ClientState,
    pub ip: SourceIP,
    pub key: u32,
    pub num_want: DesiredPeers,
    pub port: u16,
}

impl AnnounceRequest {
    /// Whether the request is the only one with its bytes on the wire: see
    /// [`SourceIP::wf`] and [`DesiredPeers::wf`].
    pub open spec fn wf(self) -> bool {
        self.ip.wf() && self.num_want.wf()
    }

    /// The body of the request on the wire.
    pub open spec fn wire(self) -> Seq<u8> {
        self.info_hash@ + self.peer_id@ + be_bytes(self.state.downloaded as nat, 8) + be_bytes(
            self.state.left as nat,
            8,
        ) + be_bytes(self.state.uploaded as nat, 8) + be_bytes(self.state.event.code() as nat, 4)
            + self.ip.wire() + be_bytes(self.key as nat, 4) + be_bytes(
            self.num_want.code() as nat,
            4,
        ) + be_bytes(self.port as nat, 2)
    }

    /// Create a new `AnnounceRequest`.
    pub fn new(
        hash: InfoHash,
        peer_id: PeerId,
        state: ClientState,
        ip: SourceIP,
        port: u16,
        key: u32,
        num_want: DesiredPeers,
    ) -> (r: AnnounceRequest)
        ensures
            r == (AnnounceRequest { info_hash: hash, peer_id, state, ip, key, num_want, port }),
    {
        AnnounceRequest { info_hash: hash, peer_id, state, ip, key, num_want, port }
    }

    pub fn info_hash(&self) -> (r: InfoHash)
        ensures
            r == self.info_hash,
    {
        self.info_hash
    }

    pub fn peer_id(&self) -> (r: PeerId)
        ensures
            r == self.peer_id,
    {
        self.peer_id
    }

    pub fn state(&self) -> (r: ClientState)
        ensures
            r == self.state,
    {
        self.state
    }

    pub fn source_ip(&self) -> (r: SourceIP)
        ensures
            r == self.ip,
    {
        self.ip
    }

    pub fn key(&self) -> (r: u32)
        ensures
            r == self.key,
    {
        self.key
    }

    pub fn num_want(&self) -> (r: DesiredPeers)
        ensures
            r == self.num_want,
    {
        self.num_want
    }

    pub fn port(&self) -> (r: u16)
        ensures
            r == self.port,
    {
        self.port
    }

    /// Appends the body of the request.
    pub fn write_bytes(&self, out: &mut Vec<u8>)
        ensures
            final(out)@ == old(out)@ + self.wire(),
    {
        extend_bytes(out, self.info_hash.as_bytes());
        extend_bytes(out, self.peer_id.as_bytes());
        write_u64_be(out, self.state.downloaded);
        write_u64_be(out, self.state.left);
        write_u64_be(out, self.state.uploaded);
        write_u32_be(out, self.state.event.as_id());
        self.ip.write_bytes(out);
        write_u32_be(out, self.key);
        write_u32_be(out, self.num_want.as_id());
        write_u16_be(out, self.port);
        assert(out@ =~= old(out)@ + self.wire());
    }

    /// Reads a request whose address field has `ip_len` bytes, 4 or 16.
    fn from_bytes_with(bytes: &[u8], v4: bool) -> (r: Result<(AnnounceRequest, usize), FramingError>)
        ensures
            announce_parsed(bytes@, v4, r),
    {
        let ip_len: usize = if v4 {
            4
        } else {
            16
        };
        let total: usize = 78 + ip_len;
        if bytes.len() < total {
            return Err(FramingError::ShortRead);
        }
        let info_hash = match ShaHash::from_hash(vstd::slice::slice_subrange(bytes, 0, 20)) {
            Ok(h) => h,
            Err(_) => {
                return Err(FramingError::ShortRead);
            },
        };
        let peer_id = match ShaHash::from_hash(vstd::slice::slice_subrange(bytes, 20, 40)) {
            Ok(h) => h,
            Err(_) => {
                return Err(FramingError::ShortRead);
            },
        };
        let downloaded = match read_u64_be(bytes, 40) {
            Some(v) => v,
            None => {
                return Err(FramingError::ShortRead);
            },
        };
        let left = match read_u64_be(bytes, 48) {
            Some(v) => v,
            None => {
                return Err(FramingError::ShortRead);
            },
        };
        let uploaded = match read_u64_be(bytes, 56) {
            Some(v) => v,
            None => {
                return Err(FramingError::ShortRead);
            },
        };
        let event_id = match read_u32_be(bytes, 64) {
            Some(v) => v,
            None => {
                return Err(FramingError::ShortRead);
            },
        };
        let event = match AnnounceEvent::from_id(event_id) {
            Some(e) => e,
            None => {
                return Err(FramingError::InvalidValue);
            },
        };
        let ip = if v4 {
            SourceIP::read_v4(bytes, 68)
        } else {
            SourceIP::read_v6(bytes, 68)
        };
        let key = match read_u32_be(bytes, 68 + ip_len) {
            Some(v) => v,
            None => {
                return Err(FramingError::ShortRead);
            },
        };
        let num_want_id = match read_u32_be(bytes, 72 + ip_len) {
            Some(v) => v,
            None => {
                return Err(FramingError::ShortRead);
            },
        };
        let num_want = DesiredPeers::from_id(num_want_id);
        let port = match read_u16_be(bytes, 76 + ip_len) {
            Some(v) => v,
            None => {
                return Err(FramingError::ShortRead);
            },
        };
        let request = AnnounceRequest {
            info_hash,
            peer_id,
            state: ClientState { downloaded, left, uploaded, event },
            ip,
            key,
            num_want,
            port,
        };
        proof {
            let s = bytes@;
            let n = ip_len as int;
            lemma_be_bytes_of_value(s.subrange(40, 48));
            lemma_be_bytes_of_value(s.subrange(48, 56));
            lemma_be_bytes_of_value(s.subrange(56, 64));
            lemma_be_bytes_of_value(s.subrange(64, 68));
            lemma_be_bytes_of_value(s.subrange(68 + n, 72 + n));
            lemma_be_bytes_of_value(s.subrange(72 + n, 76 + n));
            lemma_be_bytes_of_value(s.subrange(76 + n, 78 + n));
            assert(request.wire() =~= s.subrange(0, total as int));
        }
        Ok((request, total))
    }

    /// Reads the body of an announce request with an IPv4 address field from
    /// the start of `bytes`.
    pub fn from_bytes_v4(bytes: &[u8]) -> (r: Result<(AnnounceRequest, usize), FramingError>)
        ensures
            announce_parsed(bytes@, true, r),
    {
        AnnounceRequest::from_bytes_with(bytes, true)
    }

    /// Reads the body of an announce request with an IPv6 address field from
    /// the start of `bytes`.
    pub fn from_bytes_v6(bytes: &[u8]) -> (r: Result<(AnnounceRequest, usize), FramingError>)
        ensures
            announce_parsed(bytes@, false, r),
    {
        AnnounceRequest::from_bytes_with(bytes, false)
    }
}

/// The number of bytes of an announce body.
pub open spec fn announce_len(v4: bool) -> nat {
    if v4 {
        82
    } else {
        94
    }
}

/// What reading an announce body from `s` gives. Input shorter than the body
/// is a short read; an event above 3 is an invalid value; otherwise the
/// result is the well-formed request whose body the first bytes of `s` are,
/// of the family asked for, together with the length of that body.
pub open spec fn announce_parsed(
    s: Seq<u8>,
    v4: bool,
    r: Result<(AnnounceRequest, usize), FramingError>,
) -> bool {
    if s.len() < announce_len(v4) {
        r == Err::<(AnnounceRequest, usize), FramingError>(FramingError::ShortRead)
    } else if field_at(s, 64, 4)->Some_0 > 3 {
        r == Err::<(AnnounceRequest, usize), FramingError>(FramingError::InvalidValue)
    } else {
        &&& r matches Ok((request, n))
        &&& n == announce_len(v4)
        &&& request.wf()
        &&& request.ip.spec_is_ipv4() == v4
        &&& request.wire() == s.subrange(0, n as int)
    }
}

/// A well-formed request is determined by its body.
pub proof fn lemma_announce_wire_injective(a: AnnounceRequest, b: AnnounceRequest)
    requires
        a.wf(),
        b.wf(),
        a.ip.spec_is_ipv4() == b.ip.spec_is_ipv4(),
        a.wire() == b.wire(),
    ensures
        a == b,
{
    lemma_radix_pow_values();
    lemma_be_bytes_len(a.port as nat, 2);
    lemma_be_bytes_len(b.port as nat, 2);
    lemma_be_bytes_len(a.num_want.code() as nat, 4);
    lemma_be_bytes_len(b.num_want.code() as nat, 4);
    lemma_be_bytes_len(a.key as nat, 4);
    lemma_be_bytes_len(b.key as nat, 4);
    lemma_be_bytes_len(a.state.event.code() as nat, 4);
    lemma_be_bytes_len(b.state.event.code() as nat, 4);
    lemma_be_bytes_len(a.state.uploaded as nat, 8);
    lemma_be_bytes_len(b.state.uploaded as nat, 8);
    lemma_be_bytes_len(a.state.left as nat, 8);
    lemma_be_bytes_len(b.state.left as nat, 8);
    lemma_be_bytes_len(a.state.downloaded as nat, 8);
    lemma_be_bytes_len(b.state.downloaded as nat, 8);
    let a1 = a.info_hash@;
    let b1 = b.info_hash@;
    let a2 = a1 + a.peer_id@;
    let b2 = b1 + b.peer_id@;
    let a3 = a2 + be_bytes(a.state.downloaded as nat, 8);
    let b3 = b2 + be_bytes(b.state.downloaded as nat, 8);
    let a4 = a3 + be_bytes(a.state.left as nat, 8);
    let b4 = b3 + be_bytes(b.state.left as nat, 8);
    let a5 = a4 + be_bytes(a.state.uploaded as nat, 8);
    let b5 = b4 + be_bytes(b.state.uploaded as nat, 8);
    let a6 = a5 + be_bytes(a.state.event.code() as nat, 4);
    let b6 = b5 + be_bytes(b.state.event.code() as nat, 4);
    let a7 = a6 + a.ip.wire();
    let b7 = b6 + b.ip.wire();
    let a8 = a7 + be_bytes(a.key as nat, 4);
    let b8 = b7 + be_bytes(b.key as nat, 4);
    let a9 = a8 + be_bytes(a.num_want.code() as nat, 4);
    let b9 = b8 + be_bytes(b.num_want.code() as nat, 4);
    lemma_concat_parts(a9, be_bytes(a.port as nat, 2), b9, be_bytes(b.port as nat, 2));
    lemma_concat_parts(
        a8,
        be_bytes(a.num_want.code() as nat, 4),
        b8,
        be_bytes(b.num_want.code() as nat, 4),
    );
    lemma_concat_parts(a7, be_bytes(a.key as nat, 4), b7, be_bytes(b.key as nat, 4));
    lemma_concat_parts(a6, a.ip.wire(), b6, b.ip.wire());
    lemma_concat_parts(
        a5,
        be_bytes(a.state.event.code() as nat, 4),
        b5,
        be_bytes(b.state.event.code() as nat, 4),
    );
    lemma_concat_parts(
        a4,
        be_bytes(a.state.uploaded as nat, 8),
        b4,
        be_bytes(b.state.uploaded as nat, 8),
    );
    lemma_concat_parts(a3, be_bytes(a.state.left as nat, 8), b3, be_bytes(b.state.left as nat, 8));
    lemma_concat_parts(
        a2,
        be_bytes(a.state.downloaded as nat, 8),
        b2,
        be_bytes(b.state.downloaded as nat, 8),
    );
    lemma_concat_parts(a1, a.peer_id@, b1, b.peer_id@);
    lemma_be_bytes_injective(a.port as nat, b.port as nat, 2);
    lemma_be_bytes_injective(a.num_want.code() as nat, b.num_want.code() as nat, 4);
    lemma_be_bytes_injective(a.key as nat, b.key as nat, 4);
    lemma_be_bytes_injective(a.state.event.code() as nat, b.state.event.code() as nat, 4);
    lemma_be_bytes_injective(a.state.uploaded as nat, b.state.uploaded as nat, 8);
    lemma_be_bytes_injective(a.state.left as nat, b.state.left as nat, 8);
    lemma_be_bytes_injective(a.state.downloaded as nat, b.state.downloaded as nat, 8);
    assert(a.info_hash.hash =~= b.info_hash.hash);
    assert(a.peer_id.hash =~= b.peer_id.hash);
    assert(a.ip == b.ip) by {
        match (a.ip, b.ip) {
            (SourceIP::ExplicitV4(x), SourceIP::ExplicitV4(y)) => {
                assert(x.octets =~= y.octets);
            },
            (SourceIP::ExplicitV6(x), SourceIP::ExplicitV6(y)) => {
                assert(x.octets =~= y.octets);
            },
            _ => {},
        }
    }
    assert(a.state.event == b.state.event);
    assert(a.num_want == b.num_want);
}

/// Reading the body of a well-formed request gives the request back: whatever
/// meets [`announce_parsed`] on the body is the request and the body's length.
pub proof fn lemma_announce_round_trip(
    request: AnnounceRequest,
    r: Result<(AnnounceRequest, usize), FramingError>,
)
    requires
        request.wf(),
        announce_parsed(request.wire(), request.ip.spec_is_ipv4(), r),
    ensures
        r == Ok::<(AnnounceRequest, usize), FramingError>((request, request.wire().len() as usize)),
{
    let s = request.wire();
    let v4 = request.ip.spec_is_ipv4();
    lemma_announce_wire_len(request);
    lemma_radix_pow_values();
    lemma_be_bytes_len(request.state.event.code() as nat, 4);
    assert(s.subrange(64, 68) =~= be_bytes(request.state.event.code() as nat, 4)) by {
        lemma_announce_wire_len(request);
        lemma_announce_event_field(request);
    }
    crate::util::convert::lemma_be_value_of_bytes(request.state.event.code() as nat, 4);
    let (parsed, n) = r->Ok_0;
    assert(s.subrange(0, n as int) =~= s);
    lemma_announce_wire_injective(parsed, request);
}

/// The body has 82 bytes with an IPv4 address field and 94 with an IPv6 one.
pub proof fn lemma_announce_wire_len(request: AnnounceRequest)
    ensures
        request.wire().len() == announce_len(request.ip.spec_is_ipv4()),
{
    lemma_be_bytes_len(request.port as nat, 2);
    lemma_be_bytes_len(request.num_want.code() as nat, 4);
    lemma_be_bytes_len(request.key as nat, 4);
    lemma_be_bytes_len(request.state.event.code() as nat, 4);
    lemma_be_bytes_len(request.state.uploaded as nat, 8);
    lemma_be_bytes_len(request.state.left as nat, 8);
    lemma_be_bytes_len(request.state.downloaded as nat, 8);
}

/// The event stands at offset 64 of the body.
proof fn lemma_announce_event_field(request: AnnounceRequest)
    ensures
        request.wire().subrange(64, 68) == be_bytes(request.state.event.code() as nat, 4),
{
    lemma_be_bytes_len(request.port as nat, 2);
    lemma_be_bytes_len(request.num_want.code() as nat, 4);
    lemma_be_bytes_len(request.key as nat, 4);
    lemma_be_bytes_len(request.state.event.code() as nat, 4);
    lemma_be_bytes_len(request.state.uploaded as nat, 8);
    lemma_be_bytes_len(request.state.left as nat, 8);
    lemma_be_bytes_len(request.state.downloaded as nat, 8);
    assert(request.wire().subrange(64, 68) =~= be_bytes(request.state.event.code() as nat, 4));
}

} // verus!
