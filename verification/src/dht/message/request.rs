//! Queries: what a node asks of another.

use crate::bencode::convert::BencodeConvertError;
use crate::bencode::text::key_of;
use crate::bencode::value::{Bencode, BencodeValue};
use crate::dht::error::{invalid, invalid_message, Detail, DetailView, DhtError, DhtFault, Side};
use crate::dht::message::announce_peer::{
    announce_peer_request_of, AnnouncePeerRequest, ConnectPort,
};
use crate::dht::message::find_node::{find_node_request_of, FindNodeRequest};
use crate::dht::message::get_peers::{get_peers_request_of, GetPeersRequest};
use crate::dht::message::ping::{ping_of, PingRequest};
use crate::dht::message::validate::{info_hash_of, node_id_of, required_dict, Validate};
use crate::dht::message::{
    ANNOUNCE_PEER_TYPE_KEY, FIND_NODE_TYPE_KEY, GET_PEERS_TYPE_KEY, PING_TYPE_KEY,
    REQUEST_ARGS_KEY,
};
use crate::util::bt::{InfoHash, NodeId};
use crate::util::convert::bytes_equal;
use vstd::prelude::*;

verus! {

/// Validation of the arguments of a query in one transaction.
pub struct RequestValidate<'a> {
    pub trans_id: &'a [u8],
}

impl<'a> RequestValidate<'a> {
    pub fn new(trans_id: &'a [u8]) -> (r: RequestValidate<'a>)
        ensures
            r.trans_id@ == trans_id@,
    {
        RequestValidate { trans_id }
    }

    /// Validate and deserialize bytes into a `NodeId`: they must be twenty.
    pub fn validate_node_id(&self, node_id: &[u8]) -> (r: Result<NodeId, DhtError>)
        ensures
            match node_id_of(Side::Request, self.trans_id@, node_id@) {
                Ok(id) => r matches Ok(found) && found@ == id,
                Err(fault) => r matches Err(e) && e@ == fault,
            },
    {
        Validate::new(Side::Request, self.trans_id).validate_node_id(node_id)
    }

    /// Validate and deserialize bytes into an `InfoHash`: they must be twenty.
    pub fn validate_info_hash(&self, info_hash: &[u8]) -> (r: Result<InfoHash, DhtError>)
        ensures
            match info_hash_of(Side::Request, self.trans_id@, info_hash@) {
                Ok(hash) => r matches Ok(found) && found@ == hash,
                Err(fault) => r matches Err(e) && e@ == fault,
            },
    {
        Validate::new(Side::Request, self.trans_id).validate_info_hash(info_hash)
    }

    /// The error of this transaction for a failed lookup.
    pub fn handle_error(&self, error: BencodeConvertError) -> (r: DhtError)
        ensures
            r@ == invalid(Side::Request, self.trans_id@, DetailView::Convert(error@)),
    {
        Validate::new(Side::Request, self.trans_id).handle_error(error)
    }
}

#[derive(Copy, Clone, PartialEq, Eq, Hash, Debug)]
pub enum RequestType<'a> {
    Ping(PingRequest<'a>),
    FindNode(FindNodeRequest<'a>),
    GetPeers(GetPeersRequest<'a>),
    AnnouncePeer(AnnouncePeerRequest<'a>),
}

/// What a query holds, as the model sees it.
pub enum RequestModel {
    /// The node id.
    Ping(Seq<u8>),
    /// The node id and the target id.
    FindNode(Seq<u8>, Seq<u8>),
    /// The node id and the info hash.
    GetPeers(Seq<u8>, Seq<u8>),
    /// The node id, the info hash, the token and the port.
    AnnouncePeer(Seq<u8>, Seq<u8>, Seq<u8>, ConnectPort),
}

impl<'a> View for RequestType<'a> {
    type V = RequestModel;

    open spec fn view(&self) -> RequestModel {
        match self {
            RequestType::Ping(req) => RequestModel::Ping(req.node_id@),
            RequestType::FindNode(req) => RequestModel::FindNode(req.node_id@, req.target_id@),
            RequestType::GetPeers(req) => RequestModel::GetPeers(req.node_id@, req.info_hash@),
            RequestType::AnnouncePeer(req) => RequestModel::AnnouncePeer(
                req.node_id@,
                req.info_hash@,
                req.token@,
                req.port,
            ),
        }
    }
}

/// What the dictionary `root` of a query of the kind `rqst_type` holds. The
/// arguments stand under the key `a`; a kind that is none of the four known
/// ones is an invalid request.
pub open spec fn request_of(root: BencodeValue, trans_id: Seq<u8>, rqst_type: Seq<u8>) -> Result<
    RequestModel,
    DhtFault,
> {
    match required_dict(Side::Request, trans_id, root, key_of(REQUEST_ARGS_KEY)) {
        Err(fault) => Err(fault),
        Ok(values) => {
            let args = BencodeValue::Dict(values);
            if rqst_type == key_of(PING_TYPE_KEY) {
                match ping_of(Side::Request, args, trans_id) {
                    Ok(id) => Ok(RequestModel::Ping(id)),
                    Err(fault) => Err(fault),
                }
            } else if rqst_type == key_of(FIND_NODE_TYPE_KEY) {
                match find_node_request_of(args, trans_id) {
                    Ok((id, target)) => Ok(RequestModel::FindNode(id, target)),
                    Err(fault) => Err(fault),
                }
            } else if rqst_type == key_of(GET_PEERS_TYPE_KEY) {
                match get_peers_request_of(args, trans_id) {
                    Ok((id, hash)) => Ok(RequestModel::GetPeers(id, hash)),
                    Err(fault) => Err(fault),
                }
            } else if rqst_type == key_of(ANNOUNCE_PEER_TYPE_KEY) {
                match announce_peer_request_of(args, trans_id) {
                    Ok((id, hash, token, port)) => Ok(
                        RequestModel::AnnouncePeer(id, hash, token, port),
                    ),
                    Err(fault) => Err(fault),
                }
            } else {
                Err(invalid(Side::Request, trans_id, DetailView::UnknownType))
            }
        },
    }
}

impl<'a> RequestType<'a> {
    /// The transaction id of the query.
    pub open spec fn trans_id(&self) -> Seq<u8> {
        match self {
            RequestType::Ping(req) => req.trans_id@,
            RequestType::FindNode(req) => req.trans_id@,
            RequestType::GetPeers(req) => req.trans_id@,
            RequestType::AnnouncePeer(req) => req.trans_id@,
        }
    }

    /// Creates a new `RequestType` from the dictionary `root` of a message
    /// whose type is `q` and whose kind of query is `rqst_type`.
    pub fn from_parts(root: &'a Bencode, trans_id: &'a [u8], rqst_type: &[u8]) -> (r: Result<
        RequestType<'a>,
        DhtError,
    >)
        ensures
            match request_of(root@, trans_id@, rqst_type@) {
                Ok(model) => r matches Ok(request) && request@ == model && request.trans_id()
                    == trans_id@,
                Err(fault) => r matches Err(e) && e@ == fault,
            },
    {
        let validate = Validate::new(Side::Request, trans_id);
        let rqst_root = match validate.lookup_and_convert_dict(root, REQUEST_ARGS_KEY) {
            Ok(d) => d,
            Err(e) => {
                return Err(e);
            },
        };
        if bytes_equal(rqst_type, PING_TYPE_KEY.as_bytes()) {
            match PingRequest::from_parts(rqst_root, trans_id) {
                Ok(ping_rqst) => Ok(RequestType::Ping(ping_rqst)),
                Err(e) => Err(e),
            }
        } else if bytes_equal(rqst_type, FIND_NODE_TYPE_KEY.as_bytes()) {
            match FindNodeRequest::from_parts(rqst_root, trans_id) {
                Ok(find_node_rqst) => Ok(RequestType::FindNode(find_node_rqst)),
                Err(e) => Err(e),
            }
        } else if bytes_equal(rqst_type, GET_PEERS_TYPE_KEY.as_bytes()) {
            match GetPeersRequest::from_parts(rqst_root, trans_id) {
                Ok(get_peers_rqst) => Ok(RequestType::GetPeers(get_peers_rqst)),
                Err(e) => Err(e),
            }
        } else if bytes_equal(rqst_type, ANNOUNCE_PEER_TYPE_KEY.as_bytes()) {
            match AnnouncePeerRequest::from_parts(rqst_root, trans_id) {
                Ok(announce_peer_rqst) => Ok(RequestType::AnnouncePeer(announce_peer_rqst)),
                Err(e) => Err(e),
            }
        } else {
            Err(invalid_message(Side::Request, trans_id, Detail::UnknownType))
        }
    }
}

} // verus!
