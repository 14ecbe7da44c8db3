//! Errors of the distributed hash table's messages.

use crate::bencode::convert::{BencodeConvertError, ConvertFault};
use vstd::prelude::*;

verus! {

/// What was found wrong with a message.
#[derive(Clone, Debug, PartialEq, Eq)]
pub enum Detail {
    /// A node id that is not twenty bytes long, with its length.
    NodeIdLength(usize),
    /// An info hash that is not twenty bytes long, with its length.
    InfoHashLength(usize),
    /// Compact node information whose length is not a multiple of 26, with
    /// its length.
    NodesLength(usize),
    /// A list of values with an item that is not a byte string.
    ValuesNotBytes,
    /// A list of values with a byte string that is not six bytes long.
    ValuesLength,
    /// A response to `get_peers` with neither nodes nor values.
    NoNodesOrValues,
    /// A query or a message of a type that is not known.
    UnknownType,
    /// An error list that is not a code and a message.
    MalformedError,
    /// A required key that is missing or holds a value of the wrong kind.
    Convert(BencodeConvertError),
}

/// What was found wrong with a message, as the model sees it.
pub enum DetailView {
    NodeIdLength(usize),
    InfoHashLength(usize),
    NodesLength(usize),
    ValuesNotBytes,
    ValuesLength,
    NoNodesOrValues,
    UnknownType,
    MalformedError,
    Convert(ConvertFault),
}

impl View for Detail {
    type V = DetailView;

    open spec fn view(&self) -> DetailView {
        match self {
            Detail::NodeIdLength(n) => DetailView::NodeIdLength(*n),
            Detail::InfoHashLength(n) => DetailView::InfoHashLength(*n),
            Detail::NodesLength(n) => DetailView::NodesLength(*n),
            Detail::ValuesNotBytes => DetailView::ValuesNotBytes,
            Detail::ValuesLength => DetailView::ValuesLength,
            Detail::NoNodesOrValues => DetailView::NoNodesOrValues,
            Detail::UnknownType => DetailView::UnknownType,
            Detail::MalformedError => DetailView::MalformedError,
            Detail::Convert(e) => DetailView::Convert(e@),
        }
    }
}

/// Why a message was not accepted.
#[derive(Clone, Debug, PartialEq, Eq)]
pub enum DhtError {
    /// The remote node answered with an error: its code and its message.
    InvalidMessage { code: i64, message: Vec<u8> },
    /// A query that failed validation.
    InvalidRequest { trans_id: Vec<u8>, details: Detail },
    /// A response that failed validation. Routing treats it like a timeout.
    InvalidResponse { trans_id: Vec<u8>, details: Detail },
    /// A response to a transaction that nobody waits for.
    UnsolicitedResponse,
}

/// Why a message was not accepted, as the model sees it.
pub enum DhtFault {
    InvalidMessage { code: i64, message: Seq<u8> },
    InvalidRequest { trans_id: Seq<u8>, details: DetailView },
    InvalidResponse { trans_id: Seq<u8>, details: DetailView },
    UnsolicitedResponse,
}

impl View for DhtError {
    type V = DhtFault;

    open spec fn view(&self) -> DhtFault {
        match self {
            DhtError::InvalidMessage { code, message } => DhtFault::InvalidMessage {
                code: *code,
                message: message@,
            },
            DhtError::InvalidRequest { trans_id, details } => DhtFault::InvalidRequest {
                trans_id: trans_id@,
                details: details@,
            },
            DhtError::InvalidResponse { trans_id, details } => DhtFault::InvalidResponse {
                trans_id: trans_id@,
                details: details@,
            },
            DhtError::UnsolicitedResponse => DhtFault::UnsolicitedResponse,
        }
    }
}

/// Which side of an exchange a message belongs to.
#[derive(Copy, Clone, Debug, PartialEq, Eq, Structural)]
pub enum Side {
    Request,
    Response,
}

/// The fault of a message of side `side` in the transaction `trans_id`.
pub open spec fn invalid(side: Side, trans_id: Seq<u8>, details: DetailView) -> DhtFault {
    match side {
        Side::Request => DhtFault::InvalidRequest { trans_id, details },
        Side::Response => DhtFault::InvalidResponse { trans_id, details },
    }
}

/// The error for a message of side `side` in the transaction `trans_id`.
pub fn invalid_message(side: Side, trans_id: &[u8], details: Detail) -> (r: DhtError)
    ensures
        r@ == invalid(side, trans_id@, details@),
{
    let trans_id = crate::util::convert::copy_bytes(trans_id);
    match side {
        Side::Request => DhtError::InvalidRequest { trans_id, details },
        Side::Response => DhtError::InvalidResponse { trans_id, details },
    }
}

} // verus!
