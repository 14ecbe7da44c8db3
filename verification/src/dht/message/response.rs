//! Responses: what a node answers to a query.
//!
//! A response does not say which query it answers. Its receiver knows, from
//! the transaction id, which kind it waits for, and reads the values as that
//! kind.

use crate::bencode::convert::BencodeConvertError;
use crate::bencode::text::key_of;
use crate::bencode::value::{items_view, Bencode, BencodeValue};
use crate::dht::error::{invalid, DetailView, DhtError, DhtFault, Side};
use crate::dht::message::announce_peer::{announce_peer_response_of, AnnouncePeerResponse};
use crate::dht::message::compact_info::{CompactNodeInfo, CompactValueInfo};
use crate::dht::message::find_node::{find_node_response_of, FindNodeResponse};
use crate::dht::message::get_peers::{
    get_peers_response_of, token_view, CompactInfoModel, GetPeersResponse,
};
use crate::dht::message::ping::{ping_of, PingResponse};
use crate::dht::message::validate::{
    node_id_of, nodes_of, required_dict, values_of, Validate,
};
use crate::util::bt::NodeId;
use vstd::prelude::*;

verus! {

/// Key for the values of a response.
pub const RESPONSE_ARGS_KEY: &'static str = "r";

/// Validation of the values of a response in one transaction.
pub struct ResponseValidate<'a> {
    pub trans_id: &'a [u8],
}

impl<'a> ResponseValidate<'a> {
    pub fn new(trans_id: &'a [u8]) -> (r: ResponseValidate<'a>)
        ensures
            r.trans_id@ == trans_id@,
    {
        ResponseValidate { trans_id }
    }

    /// Validate and deserialize bytes into a `NodeId`: they must be twenty.
    pub fn validate_node_id(&self, node_id: &[u8]) -> (r: Result<NodeId, DhtError>)
        ensures
            match node_id_of(Side::Response, self.trans_id@, node_id@) {
                Ok(id) => r matches Ok(found) && found@ == id,
                Err(fault) => r matches Err(e) && e@ == fault,
            },
    {
        Validate::new(Side::Response, self.trans_id).validate_node_id(node_id)
    }

    /// Validate and deserialize bytes into a `CompactNodeInfo`: their number
    /// must be a multiple of 26.
    pub fn validate_nodes<'b>(&self, nodes: &'b [u8]) -> (r: Result<CompactNodeInfo<'b>, DhtError>)
        ensures
            match nodes_of(Side::Response, self.trans_id@, nodes@) {
                Ok(bytes) => r matches Ok(found) && found.nodes@ == bytes && found.wf(),
                Err(fault) => r matches Err(e) && e@ == fault,
            },
    {
        Validate::new(Side::Response, self.trans_id).validate_nodes(nodes)
    }

    /// Validate and deserialize a list into a `CompactValueInfo`: every item
    /// must be a byte string, and each of six bytes.
    pub fn validate_values<'b>(&self, values: &'b Vec<Bencode>) -> (r: Result<
        CompactValueInfo<'b>,
        DhtError,
    >)
        ensures
            match values_of(Side::Response, self.trans_id@, items_view(values@)) {
                Ok(items) => r matches Ok(found) && found.values@ == values@ && found.wf(),
                Err(fault) => r matches Err(e) && e@ == fault,
            },
    {
        Validate::new(Side::Response, self.trans_id).validate_values(values)
    }

    /// The error of this transaction for a failed lookup.
    pub fn handle_error(&self, error: BencodeConvertError) -> (r: DhtError)
        ensures
            r@ == invalid(Side::Response, self.trans_id@, DetailView::Convert(error@)),
    {
        Validate::new(Side::Response, self.trans_id).handle_error(error)
    }
}

/// The kind of response that the owner of a transaction waits for.
#[derive(Copy, Clone, Debug, PartialEq, Eq, Structural)]
pub enum ExpectedResponse {
    Ping,
    FindNode,
    GetPeers,
    AnnouncePeer,
    GetData,
    PutData,
    /// Nobody waits for a response in this transaction.
    NoResponse,
}

#[derive(Copy, Clone, PartialEq, Eq, Debug)]
pub enum ResponseType<'a> {
    Ping(PingResponse<'a>),
    FindNode(FindNodeResponse<'a>),
    GetPeers(GetPeersResponse<'a>),
    AnnouncePeer(AnnouncePeerResponse<'a>),
}

/// What a response holds, as the model sees it.
pub enum ResponseModel {
    /// The node id.
    Ping(Seq<u8>),
    /// The node id and the compact node information.
    FindNode(Seq<u8>, Seq<u8>),
    /// The node id, the token if there is one, and the nodes and values.
    GetPeers(Seq<u8>, Option<Seq<u8>>, CompactInfoModel),
    /// The node id.
    AnnouncePeer(Seq<u8>),
}

impl<'a> View for ResponseType<'a> {
    type V = ResponseModel;

    open spec fn view(&self) -> ResponseModel {
        match self {
            ResponseType::Ping(rsp) => ResponseModel::Ping(rsp.node_id@),
            ResponseType::FindNode(rsp) => ResponseModel::FindNode(rsp.node_id@, rsp.nodes.nodes@),
            ResponseType::GetPeers(rsp) => ResponseModel::GetPeers(
                rsp.node_id@,
                token_view(rsp.token),
                rsp.info_type@,
            ),
            ResponseType::AnnouncePeer(rsp) => ResponseModel::AnnouncePeer(rsp.node_id@),
        }
    }
}

impl<'a> ResponseType<'a> {
    /// The transaction id of the response.
    pub open spec fn trans_id(&self) -> Seq<u8> {
        match self {
            ResponseType::Ping(rsp) => rsp.trans_id@,
            ResponseType::FindNode(rsp) => rsp.trans_id@,
            ResponseType::GetPeers(rsp) => rsp.trans_id@,
            ResponseType::AnnouncePeer(rsp) => rsp.trans_id@,
        }
    }

    /// Compact information inside the response is in order.
    pub open spec fn wf(&self) -> bool {
        match self {
            ResponseType::FindNode(rsp) => rsp.nodes.wf(),
            ResponseType::GetPeers(rsp) => rsp.info_type.wf(),
            _ => true,
        }
    }

    /// Creates a new `ResponseType` from the dictionary `root` of a message
    /// whose type is `r`, read as the kind `rsp_type`.
    pub fn from_parts(root: &'a Bencode, trans_id: &'a [u8], rsp_type: &ExpectedResponse) -> (r:
        Result<ResponseType<'a>, DhtError>)
        requires
            !(rsp_type is GetData),
            !(rsp_type is PutData),
        ensures
            match response_of(root@, trans_id@, *rsp_type) {
                Ok(model) => r matches Ok(response) && response@ == model && response.trans_id()
                    == trans_id@ && response.wf(),
                Err(fault) => r matches Err(e) && e@ == fault,
            },
    {
        let validate = Validate::new(Side::Response, trans_id);
        let rqst_root = match validate.lookup_and_convert_dict(root, RESPONSE_ARGS_KEY) {
            Ok(d) => d,
            Err(e) => {
                return Err(e);
            },
        };
        match rsp_type {
            ExpectedResponse::Ping => {
                match PingResponse::from_parts(rqst_root, trans_id) {
                    Ok(ping_rsp) => Ok(ResponseType::Ping(ping_rsp)),
                    Err(e) => Err(e),
                }
            },
            ExpectedResponse::FindNode => {
                match FindNodeResponse::from_parts(rqst_root, trans_id) {
                    Ok(find_node_rsp) => Ok(ResponseType::FindNode(find_node_rsp)),
                    Err(e) => Err(e),
                }
            },
            ExpectedResponse::GetPeers => {
                match GetPeersResponse::from_parts(rqst_root, trans_id) {
                    Ok(get_peers_rsp) => Ok(ResponseType::GetPeers(get_peers_rsp)),
                    Err(e) => Err(e),
                }
            },
            ExpectedResponse::AnnouncePeer => {
                match AnnouncePeerResponse::from_parts(rqst_root, trans_id) {
                    Ok(announce_peer_rsp) => Ok(ResponseType::AnnouncePeer(announce_peer_rsp)),
                    Err(e) => Err(e),
                }
            },
            _ => Err(DhtError::UnsolicitedResponse),
        }
    }
}

/// What the dictionary `root` of a response holds when it is read as the kind
/// `expected`. The values stand under the key `r`; a response that nobody
/// waits for is unsolicited, whatever its values are.
pub open spec fn response_of(root: BencodeValue, trans_id: Seq<u8>, expected: ExpectedResponse) -> Result<
    ResponseModel,
    DhtFault,
> {
    match required_dict(Side::Response, trans_id, root, key_of(RESPONSE_ARGS_KEY)) {
        Err(fault) => Err(fault),
        Ok(values) => {
            let args = BencodeValue::Dict(values);
            match expected {
                ExpectedResponse::Ping => match ping_of(Side::Response, args, trans_id) {
                    Ok(id) => Ok(ResponseModel::Ping(id)),
                    Err(fault) => Err(fault),
                },
                ExpectedResponse::FindNode => match find_node_response_of(args, trans_id) {
                    Ok((id, nodes)) => Ok(ResponseModel::FindNode(id, nodes)),
                    Err(fault) => Err(fault),
                },
                ExpectedResponse::GetPeers => match get_peers_response_of(args, trans_id) {
                    Ok((id, token, info)) => Ok(ResponseModel::GetPeers(id, token, info)),
                    Err(fault) => Err(fault),
                },
                ExpectedResponse::AnnouncePeer => match announce_peer_response_of(args, trans_id) {
                    Ok(id) => Ok(ResponseModel::AnnouncePeer(id)),
                    Err(fault) => Err(fault),
                },
                _ => Err(DhtFault::UnsolicitedResponse),
            }
        },
    }
}

} // verus!
