//! Messaging primitives for requests.

use crate::util::convert::{
    be_bytes,
    be_value,
    lemma_be_bytes_len,
    lemma_be_value_of_bytes,
    lemma_radix_pow_values,
    read_u32_be,
    read_u64_be,
    write_u32_be,
    write_u64_be,
};
use crate::util::error::FramingError;
use crate::utracker::announce::{
    announce_parsed,
    lemma_announce_round_trip,
    lemma_announce_wire_len,
    AnnounceRequest,
};
use crate::utracker::scrape::{
    lemma_hashes_wire_injective, lemma_hashes_wire_len, scrape_parsed, ScrapeRequest,
};
use crate::utracker::{
    ANNOUNCE_IPV4_ACTION_ID, ANNOUNCE_IPV6_ACTION_ID, CONNECT_ACTION_ID, SCRAPE_ACTION_ID,
};
use crate::util::bt::InfoHash;
use vstd::prelude::*;
use vstd::slice::slice_subrange;

verus! {

// For all practical applications, this value should be hardcoded as a valid
// connection id for connection requests when operating in server mode and
// processing incoming requests.
/// Global connection id for connect requests.
pub const CONNECT_ID_PROTOCOL_ID: u64 = 0x0417_2710_1980;

/// Length of what every request starts with: connection id, action and
/// transaction id.
pub const REQUEST_HEADER_LEN: usize = 16;

/// Enumerates all types of requests that can be made to a tracker.
#[derive(Debug, PartialEq, Eq)]
pub enum RequestType {
    Connect,
    Announce(AnnounceRequest),
    Scrape(ScrapeRequest),
}

/// What a type of request is, apart from how it is stored.
pub enum RequestTypeView {
    Connect,
    Announce(AnnounceRequest),
    Scrape(Seq<InfoHash>),
}

impl View for RequestType {
    type V = RequestTypeView;

    open spec fn view(&self) -> RequestTypeView {
        match self {
            RequestType::Connect => RequestTypeView::Connect,
            RequestType::Announce(req) => RequestTypeView::Announce(*req),
            RequestType::Scrape(req) => RequestTypeView::Scrape(req@),
        }
    }
}

impl RequestType {
    /// The action that marks this type of request on the wire. For an
    /// announce it follows the family of the address field.
    pub open spec fn action(&self) -> u32 {
        match self {
            RequestType::Connect => CONNECT_ACTION_ID,
            RequestType::Announce(req) => if req.ip.spec_is_ipv4() {
                ANNOUNCE_IPV4_ACTION_ID
            } else {
                ANNOUNCE_IPV6_ACTION_ID
            },
            RequestType::Scrape(_) => SCRAPE_ACTION_ID,
        }
    }

    /// What follows the header on the wire.
    pub open spec fn body(&self) -> Seq<u8> {
        match self {
            RequestType::Connect => Seq::empty(),
            RequestType::Announce(req) => req.wire(),
            RequestType::Scrape(req) => req.wire(),
        }
    }

    /// Whether the body is that of a well-formed announce or scrape.
    pub open spec fn wf(&self) -> bool {
        match self {
            RequestType::Connect => true,
            RequestType::Announce(req) => req.wf(),
            RequestType::Scrape(req) => req.wf(),
        }
    }

    /// Create an owned version of the `RequestType`.
    pub fn to_owned(&self) -> (r: RequestType)
        ensures
            r@ == self@,
    {
        match self {
            RequestType::Connect => RequestType::Connect,
            RequestType::Announce(req) => RequestType::Announce(*req),
            RequestType::Scrape(req) => RequestType::Scrape(req.to_owned()),
        }
    }
}

/// `TrackerRequest` which encapsulates any request sent to a tracker.
#[derive(Debug, PartialEq, Eq)]
pub struct TrackerRequest {
    // Both the connection id and transaction id are technically not unsigned
    // according to the protocol, but since they are just bits we keep them as
    // unsigned (easier to generate transactions).
    pub connection_id: u64,
    pub transaction_id: u32,
    pub request_type: RequestType,
}

/// What a request is, apart from how it is stored.
pub struct TrackerRequestView {
    pub connection_id: u64,
    pub transaction_id: u32,
    pub request_type: RequestTypeView,
}

impl View for TrackerRequest {
    type V = TrackerRequestView;

    open spec fn view(&self) -> TrackerRequestView {
        TrackerRequestView {
            connection_id: self.connection_id,
            transaction_id: self.transaction_id,
            request_type: self.request_type@,
        }
    }
}

/// The sixteen bytes that every request starts with.
pub open spec fn header_wire(connection_id: u64, action: u32, transaction_id: u32) -> Seq<u8> {
    be_bytes(connection_id as nat, 8) + be_bytes(action as nat, 4) + be_bytes(
        transaction_id as nat,
        4,
    )
}

impl TrackerRequest {
    /// A connect request carries the protocol's connection id, and the body is
    /// well-formed.
    pub open spec fn wf(&self) -> bool {
        &&& self.request_type.wf()
        &&& self.request_type is Connect ==> self.connection_id == CONNECT_ID_PROTOCOL_ID
    }

    /// The request on the wire.
    pub open spec fn wire(&self) -> Seq<u8> {
        header_wire(self.connection_id, self.request_type.action(), self.transaction_id)
            + self.request_type.body()
    }

    /// Create a new `TrackerRequest`.
    pub fn new(conn_id: u64, trans_id: u32, req_type: RequestType) -> (r: TrackerRequest)
        ensures
            r == (TrackerRequest {
                connection_id: conn_id,
                transaction_id: trans_id,
                request_type: req_type,
            }),
    {
        TrackerRequest {
            connection_id: conn_id,
            transaction_id: trans_id,
            request_type: req_type,
        }
    }

    /// Create a new `TrackerRequest` from the given bytes.
    pub fn from_bytes(bytes: &[u8]) -> (r: Result<(TrackerRequest, usize), FramingError>)
        ensures
            request_parsed(bytes@, r),
    {
        parse_request(bytes)
    }

    /// Write the `TrackerRequest` to the given writer.
    pub fn write_bytes(&self, writer: &mut Vec<u8>)
        ensures
            final(writer)@ == old(writer)@ + self.wire(),
    {
        write_u64_be(writer, self.connection_id());
        match self.request_type() {
            RequestType::Connect => {
                write_u32_be(writer, CONNECT_ACTION_ID);
                write_u32_be(writer, self.transaction_id());
            },
            RequestType::Announce(req) => {
                let action_id = if req.source_ip().is_ipv4() {
                    ANNOUNCE_IPV4_ACTION_ID
                } else {
                    ANNOUNCE_IPV6_ACTION_ID
                };
                write_u32_be(writer, action_id);
                write_u32_be(writer, self.transaction_id());
                req.write_bytes(writer);
            },
            RequestType::Scrape(req) => {
                write_u32_be(writer, SCRAPE_ACTION_ID);
                write_u32_be(writer, self.transaction_id());
                req.write_bytes(writer);
            },
        }
        assert(writer@ =~= old(writer)@ + self.wire());
    }

    /// Connection ID supplied with a request to validate the senders address.
    ///
    /// For Connect requests, this will always be equal to 0x41727101980.
    /// Therefore, you should not hand out that specific ID to peers that make
    /// a connect request.
    pub fn connection_id(&self) -> (r: u64)
        ensures
            r == self.connection_id,
    {
        self.connection_id
    }

    /// Transaction ID supplied with a request to uniquely identify a response.
    pub fn transaction_id(&self) -> (r: u32)
        ensures
            r == self.transaction_id,
    {
        self.transaction_id
    }

    /// Actual type of request that this `TrackerRequest` represents.
    pub fn request_type(&self) -> (r: &RequestType)
        ensures
            *r == self.request_type,
    {
        &self.request_type
    }

    /// Create an owned version of the `TrackerRequest`.
    pub fn to_owned(&self) -> (r: TrackerRequest)
        ensures
            r@ == self@,
    {
        TrackerRequest {
            connection_id: self.connection_id,
            transaction_id: self.transaction_id,
            request_type: self.request_type.to_owned(),
        }
    }
}

/// What reading a request from `s` gives.
///
/// Fewer than sixteen bytes are a short read. Otherwise the request has the
/// connection id and the transaction id of the header, and the action
/// decides the rest. A connect request must carry the protocol's connection
/// id, or the magic is bad; it ends with the header. An announce is whatever
/// the bytes behind the header read as an announce body of its family (see
/// [`announce_parsed`]), and ends with that body. A scrape is the hashes that
/// all the bytes behind the header are; where these are none, or no whole
/// number of hashes, the read is short. Any other action is an invalid value.
pub open spec fn request_parsed(
    s: Seq<u8>,
    r: Result<(TrackerRequest, usize), FramingError>,
) -> bool {
    if s.len() < 16 {
        r == Err::<(TrackerRequest, usize), FramingError>(FramingError::ShortRead)
    } else {
        let connection_id = be_value(s.subrange(0, 8));
        let action = be_value(s.subrange(8, 12));
        let transaction_id = be_value(s.subrange(12, 16));
        let body = s.subrange(16, s.len() as int);
        if action == CONNECT_ACTION_ID {
            if connection_id != CONNECT_ID_PROTOCOL_ID {
                r == Err::<(TrackerRequest, usize), FramingError>(FramingError::BadMagic)
            } else {
                &&& r matches Ok((request, n))
                &&& n == 16
                &&& request.request_type is Connect
                &&& request.connection_id == connection_id
                &&& request.transaction_id == transaction_id
            }
        } else if action == ANNOUNCE_IPV4_ACTION_ID || action == ANNOUNCE_IPV6_ACTION_ID {
            match r {
                Ok((request, n)) => {
                    &&& request.connection_id == connection_id
                    &&& request.transaction_id == transaction_id
                    &&& request.request_type matches RequestType::Announce(announce)
                    &&& n >= 16
                    &&& announce_parsed(
                        body,
                        action == ANNOUNCE_IPV4_ACTION_ID,
                        Ok((announce, (n - 16) as usize)),
                    )
                },
                Err(e) => announce_parsed(body, action == ANNOUNCE_IPV4_ACTION_ID, Err(e)),
            }
        } else if action == SCRAPE_ACTION_ID {
            match r {
                Ok((request, n)) => {
                    &&& request.connection_id == connection_id
                    &&& request.transaction_id == transaction_id
                    &&& request.request_type matches RequestType::Scrape(scrape)
                    &&& n == s.len()
                    &&& scrape.wf()
                    &&& scrape.wire() == body
                },
                Err(e) => e == FramingError::ShortRead && (body.len() == 0 || body.len() % 20
                    != 0),
            }
        } else {
            r == Err::<(TrackerRequest, usize), FramingError>(FramingError::InvalidValue)
        }
    }
}

fn parse_request(bytes: &[u8]) -> (r: Result<(TrackerRequest, usize), FramingError>)
    ensures
        request_parsed(bytes@, r),
{
    let connection_id = match read_u64_be(bytes, 0) {
        Some(v) => v,
        None => {
            return Err(FramingError::ShortRead);
        },
    };
    let action_id = match read_u32_be(bytes, 8) {
        Some(v) => v,
        None => {
            return Err(FramingError::ShortRead);
        },
    };
    let transaction_id = match read_u32_be(bytes, 12) {
        Some(v) => v,
        None => {
            return Err(FramingError::ShortRead);
        },
    };
    let remaining = slice_subrange(bytes, 16, bytes.len());
    if action_id == CONNECT_ACTION_ID {
        if connection_id == CONNECT_ID_PROTOCOL_ID {
            Ok((TrackerRequest::new(CONNECT_ID_PROTOCOL_ID, transaction_id, RequestType::Connect), 16))
        } else {
            Err(FramingError::BadMagic)
        }
    } else if action_id == ANNOUNCE_IPV4_ACTION_ID {
        match AnnounceRequest::from_bytes_v4(remaining) {
            Ok((ann_req, used)) => Ok(
                (
                    TrackerRequest::new(connection_id, transaction_id, RequestType::Announce(ann_req)),
                    16 + used,
                ),
            ),
            Err(e) => Err(e),
        }
    } else if action_id == SCRAPE_ACTION_ID {
        match ScrapeRequest::from_bytes(remaining) {
            Ok((scr_req, used)) => Ok(
                (
                    TrackerRequest::new(connection_id, transaction_id, RequestType::Scrape(scr_req)),
                    16 + used,
                ),
            ),
            Err(e) => Err(e),
        }
    } else if action_id == ANNOUNCE_IPV6_ACTION_ID {
        match AnnounceRequest::from_bytes_v6(remaining) {
            Ok((ann_req, used)) => Ok(
                (
                    TrackerRequest::new(connection_id, transaction_id, RequestType::Announce(ann_req)),
                    16 + used,
                ),
            ),
            Err(e) => Err(e),
        }
    } else {
        Err(FramingError::InvalidValue)
    }
}

/// The header has sixteen bytes, and its three fields read back as they were
/// written.
pub proof fn lemma_header_fields(connection_id: u64, action: u32, transaction_id: u32, rest: Seq<u8>)
    ensures
        ({
            let s = header_wire(connection_id, action, transaction_id) + rest;
            &&& header_wire(connection_id, action, transaction_id).len() == 16
            &&& be_value(s.subrange(0, 8)) == connection_id
            &&& be_value(s.subrange(8, 12)) == action
            &&& be_value(s.subrange(12, 16)) == transaction_id
            &&& s.subrange(16, s.len() as int) == rest
        }),
{
    let s = header_wire(connection_id, action, transaction_id) + rest;
    lemma_radix_pow_values();
    lemma_be_bytes_len(connection_id as nat, 8);
    lemma_be_bytes_len(action as nat, 4);
    lemma_be_bytes_len(transaction_id as nat, 4);
    lemma_be_value_of_bytes(connection_id as nat, 8);
    lemma_be_value_of_bytes(action as nat, 4);
    lemma_be_value_of_bytes(transaction_id as nat, 4);
    assert(s.subrange(0, 8) =~= be_bytes(connection_id as nat, 8));
    assert(s.subrange(8, 12) =~= be_bytes(action as nat, 4));
    assert(s.subrange(12, 16) =~= be_bytes(transaction_id as nat, 4));
    assert(s.subrange(16, s.len() as int) =~= rest);
}

/// Reading what was written for a well-formed request gives the request
/// back: whatever meets [`request_parsed`] on its bytes is a request with the
/// same contents, together with the number of those bytes.
pub proof fn lemma_request_round_trip(
    request: TrackerRequest,
    r: Result<(TrackerRequest, usize), FramingError>,
)
    requires
        request.wf(),
        request_parsed(request.wire(), r),
    ensures
        r matches Ok((parsed, n)) && parsed@ == request@ && n == request.wire().len(),
{
    let s = request.wire();
    let body = request.request_type.body();
    lemma_header_fields(
        request.connection_id,
        request.request_type.action(),
        request.transaction_id,
        body,
    );
    match request.request_type {
        RequestType::Connect => {},
        RequestType::Announce(announce) => {
            lemma_announce_wire_len(announce);
            let v4 = announce.ip.spec_is_ipv4();
            match r {
                Ok((parsed, n)) => {
                    let parsed_announce = parsed.request_type->Announce_0;
                    lemma_announce_round_trip(announce, Ok((parsed_announce, (n - 16) as usize)));
                },
                Err(e) => {
                    lemma_announce_round_trip(announce, Err(e));
                },
            }
        },
        RequestType::Scrape(scrape) => {
            lemma_hashes_wire_len(scrape@);
            match r {
                Ok((parsed, n)) => {
                    let parsed_scrape = parsed.request_type->Scrape_0;
                    lemma_hashes_wire_injective(parsed_scrape@, scrape@);
                },
                Err(e) => {},
            }
        },
    }
}

} // verus!
