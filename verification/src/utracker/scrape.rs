//! Scrape requests: the torrents whose statistics a client asks for.
//!
//! The body is one or more info hashes of twenty bytes each.

use crate::util::bt::{InfoHash, ShaHash};
use crate::util::convert::{extend_bytes, lemma_concat_parts};
use crate::util::error::FramingError;
use vstd::prelude::*;

verus! {

/// A scrape request.
#[derive(Debug, PartialEq, Eq)]
pub struct ScrapeRequest {
    pub hashes: Vec<InfoHash>,
}

/// The hashes `hashes`, one after the other.
pub open spec fn hashes_wire(hashes: Seq<InfoHash>) -> Seq<u8>
    decreases hashes.len(),
{
    if hashes.len() == 0 {
        Seq::empty()
    } else {
        hashes_wire(hashes.drop_last()) + hashes.last()@
    }
}

/// `n` hashes take `20 * n` bytes.
pub proof fn lemma_hashes_wire_len(hashes: Seq<InfoHash>)
    ensures
        hashes_wire(hashes).len() == 20 * hashes.len(),
    decreases hashes.len(),
{
    if hashes.len() > 0 {
        lemma_hashes_wire_len(hashes.drop_last());
    }
}

/// Lists of hashes with the same bytes are the same list.
pub proof fn lemma_hashes_wire_injective(a: Seq<InfoHash>, b: Seq<InfoHash>)
    requires
        hashes_wire(a) == hashes_wire(b),
    ensures
        a == b,
    decreases a.len(),
{
    lemma_hashes_wire_len(a);
    lemma_hashes_wire_len(b);
    if a.len() == 0 {
        assert(a =~= b);
    } else {
        lemma_concat_parts(
            hashes_wire(a.drop_last()),
            a.last()@,
            hashes_wire(b.drop_last()),
            b.last()@,
        );
        lemma_hashes_wire_injective(a.drop_last(), b.drop_last());
        assert(a.last().hash =~= b.last().hash);
        assert(a =~= a.drop_last().push(a.last()));
        assert(b =~= b.drop_last().push(b.last()));
    }
}

impl View for ScrapeRequest {
    type V = Seq<InfoHash>;

    open spec fn view(&self) -> Seq<InfoHash> {
        self.hashes@
    }
}

impl ScrapeRequest {
    /// A request has at least one hash.
    pub open spec fn wf(&self) -> bool {
        self@.len() >= 1
    }

    /// The body of the request on the wire.
    pub open spec fn wire(&self) -> Seq<u8> {
        hashes_wire(self@)
    }

    /// Create a new `ScrapeRequest`, still without a hash.
    pub fn new() -> (r: ScrapeRequest)
        ensures
            r@ == Seq::<InfoHash>::empty(),
    {
        ScrapeRequest { hashes: Vec::new() }
    }

    /// Add the hash of one more torrent.
    pub fn insert(&mut self, hash: InfoHash)
        ensures
            final(self)@ == old(self)@.push(hash),
    {
        self.hashes.push(hash);
    }

    /// The number of hashes.
    pub fn len(&self) -> (r: usize)
        ensures
            r == self@.len(),
    {
        self.hashes.len()
    }

    /// The hash at `index`.
    pub fn get(&self, index: usize) -> (r: Option<InfoHash>)
        ensures
            r == (if index < self@.len() {
                Some(self@[index as int])
            } else {
                None
            }),
    {
        if index < self.hashes.len() {
            Some(self.hashes[index])
        } else {
            None
        }
    }

    /// A copy of the request.
    pub fn to_owned(&self) -> (r: ScrapeRequest)
        ensures
            r@ == self@,
    {
        let mut hashes: Vec<InfoHash> = Vec::new();
        let mut i: usize = 0;
        while i < self.hashes.len()
            invariant
                i <= self.hashes.len(),
                hashes@ == self.hashes@.subrange(0, i as int),
            decreases self.hashes.len() - i,
        {
            hashes.push(self.hashes[i]);
            assert(hashes@ =~= self.hashes@.subrange(0, i + 1));
            i += 1;
        }
        assert(self.hashes@.subrange(0, self.hashes.len() as int) =~= self.hashes@);
        ScrapeRequest { hashes }
    }

    /// Appends the body of the request.
    pub fn write_bytes(&self, out: &mut Vec<u8>)
        ensures
            final(out)@ == old(out)@ + self.wire(),
    {
        let mut i: usize = 0;
        assert(self@.subrange(0, 0) =~= Seq::<InfoHash>::empty());
        assert(out@ =~= old(out)@ + hashes_wire(self@.subrange(0, 0)));
        while i < self.hashes.len()
            invariant
                i <= self.hashes.len(),
                out@ == old(out)@ + hashes_wire(self@.subrange(0, i as int)),
            decreases self.hashes.len() - i,
        {
            proof {
                assert(self@.subrange(0, i + 1).drop_last() =~= self@.subrange(0, i as int));
                assert(self@.subrange(0, i + 1).last() == self@[i as int]);
            }
            let ghost before = out@;
            extend_bytes(out, self.hashes[i].as_bytes());
            assert(out@ =~= old(out)@ + hashes_wire(self@.subrange(0, i + 1)));
            i += 1;
        }
        assert(self@.subrange(0, self.hashes.len() as int) =~= self@);
    }

    /// Reads the body of a scrape request, which is all of `bytes`.
    pub fn from_bytes(bytes: &[u8]) -> (r: Result<(ScrapeRequest, usize), FramingError>)
        ensures
            scrape_parsed(bytes@, r),
    {
        if bytes.len() == 0 || bytes.len() % 20 != 0 {
            return Err(FramingError::ShortRead);
        }
        let mut hashes: Vec<InfoHash> = Vec::new();
        let mut at: usize = 0;
        assert(bytes@.subrange(0, 0) =~= hashes_wire(hashes@));
        while at < bytes.len()
            invariant
                at <= bytes.len(),
                at % 20 == 0,
                bytes.len() % 20 == 0,
                hashes@.len() * 20 == at,
                hashes_wire(hashes@) == bytes@.subrange(0, at as int),
            decreases bytes.len() - at,
        {
            let hash = match ShaHash::from_hash(vstd::slice::slice_subrange(bytes, at, at + 20)) {
                Ok(h) => h,
                Err(_) => {
                    return Err(FramingError::ShortRead);
                },
            };
            let ghost before = hashes@;
            hashes.push(hash);
            proof {
                assert(hashes@.drop_last() =~= before);
                assert(hashes_wire(hashes@) =~= bytes@.subrange(0, at + 20));
            }
            at += 20;
        }
        assert(bytes@.subrange(0, bytes.len() as int) =~= bytes@);
        Ok((ScrapeRequest { hashes }, at))
    }
}

/// What reading a scrape body from `s` gives. A body that is empty or is not
/// a whole number of hashes is a short read; otherwise the result is the
/// request whose body `s` is, together with the length of `s`.
pub open spec fn scrape_parsed(s: Seq<u8>, r: Result<(ScrapeRequest, usize), FramingError>) -> bool {
    if s.len() == 0 || s.len() % 20 != 0 {
        r == Err::<(ScrapeRequest, usize), FramingError>(FramingError::ShortRead)
    } else {
        &&& r matches Ok((request, n))
        &&& n == s.len()
        &&& request.wf()
        &&& request.wire() == s
    }
}

/// Reading the body of a well-formed request gives the request back: whatever
/// meets [`scrape_parsed`] on the body holds the same hashes, and the body's
/// length.
pub proof fn lemma_scrape_round_trip(
    request: ScrapeRequest,
    r: Result<(ScrapeRequest, usize), FramingError>,
)
    requires
        request.wf(),
        scrape_parsed(request.wire(), r),
    ensures
        r matches Ok((parsed, n)) && parsed@ == request@ && n == request.wire().len(),
{
    lemma_hashes_wire_len(request@);
    let (parsed, n) = r->Ok_0;
    lemma_hashes_wire_injective(parsed@, request@);
}

} // verus!
