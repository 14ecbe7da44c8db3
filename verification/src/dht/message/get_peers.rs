//! The `get_peers` query and its response.
//!
//! The response holds a token and either the peers of the torrent that the
//! responding node knows (`values`), or the nodes closest to the info hash
//! (`nodes`), or both.

use crate::bencode::convert::{bytes_at, list_at};
use crate::bencode::encode::encode_value;
use crate::bencode::text::key_of;
use crate::bencode::value::{insert_entry, items_view, Bencode, BencodeValue, Entries};
use crate::dht::error::{invalid, invalid_message, Detail, DetailView, DhtError, DhtFault, Side};
use crate::dht::message::compact_info::{CompactNodeInfo, CompactValueInfo};
use crate::dht::message::validate::{
    nodes_of,
    required_info_hash,
    required_node_id,
    values_of,
    Validate,
};
use crate::bencode::text::key_bytes;
use crate::dht::message::{
    build_request, build_response, put_bytes, request_value, response_value, GET_PEERS_TYPE_KEY,
    INFO_HASH_KEY, NODES_KEY, NODE_ID_KEY, TOKEN_KEY, VALUES_KEY,
};
use crate::util::bt::{InfoHash, NodeId};
use vstd::prelude::*;

verus! {

/// What the arguments `root` of a `get_peers` query hold: the node id and the
/// info hash, or the first fault in this order.
pub open spec fn get_peers_request_of(root: BencodeValue, trans_id: Seq<u8>) -> Result<
    (Seq<u8>, Seq<u8>),
    DhtFault,
> {
    match required_node_id(Side::Request, trans_id, root, key_of(NODE_ID_KEY)) {
        Err(fault) => Err(fault),
        Ok(node_id) => match required_info_hash(
            Side::Request,
            trans_id,
            root,
            key_of(INFO_HASH_KEY),
        ) {
            Err(fault) => Err(fault),
            Ok(info_hash) => Ok((node_id, info_hash)),
        },
    }
}

/// The arguments of a `get_peers` query.
pub open spec fn get_peers_args(node_id: Seq<u8>, info_hash: Seq<u8>) -> Entries {
    insert_entry(
        insert_entry(Seq::empty(), key_of(NODE_ID_KEY), BencodeValue::Bytes(node_id)),
        key_of(INFO_HASH_KEY),
        BencodeValue::Bytes(info_hash),
    )
}

#[derive(Copy, Clone, PartialEq, Eq, Hash, Debug)]
pub struct GetPeersRequest<'a> {
    pub trans_id: &'a [u8],
    pub node_id: NodeId,
    pub info_hash: InfoHash,
}

impl<'a> GetPeersRequest<'a> {
    /// The dictionary that the query is on the wire.
    pub open spec fn value(&self) -> BencodeValue {
        request_value(
            self.trans_id@,
            GET_PEERS_TYPE_KEY@,
            get_peers_args(self.node_id@, self.info_hash@),
        )
    }

    pub fn new(trans_id: &'a [u8], node_id: NodeId, info_hash: InfoHash) -> (r: GetPeersRequest<'a>)
        ensures
            r.trans_id@ == trans_id@,
            r.node_id == node_id,
            r.info_hash == info_hash,
    {
        GetPeersRequest { trans_id, node_id, info_hash }
    }

    /// Generate a `GetPeersRequest` from the arguments of a query.
    pub fn from_parts(rqst_root: &Bencode, trans_id: &'a [u8]) -> (r: Result<
        GetPeersRequest<'a>,
        DhtError,
    >)
        ensures
            match get_peers_request_of(rqst_root@, trans_id@) {
                Ok((node_id, info_hash)) => r matches Ok(request) && request.trans_id@ == trans_id@
                    && request.node_id@ == node_id && request.info_hash@ == info_hash,
                Err(fault) => r matches Err(e) && e@ == fault,
            },
    {
        let validate = Validate::new(Side::Request, trans_id);
        let node_id = match validate.lookup_node_id(rqst_root, NODE_ID_KEY) {
            Ok(id) => id,
            Err(e) => {
                return Err(e);
            },
        };
        let info_hash = match validate.lookup_info_hash(rqst_root, INFO_HASH_KEY) {
            Ok(hash) => hash,
            Err(e) => {
                return Err(e);
            },
        };
        Ok(GetPeersRequest::new(trans_id, node_id, info_hash))
    }

    pub fn transaction_id(&self) -> (r: &'a [u8])
        ensures
            r@ == self.trans_id@,
    {
        self.trans_id
    }

    pub fn node_id(&self) -> (r: NodeId)
        ensures
            r == self.node_id,
    {
        self.node_id
    }

    pub fn info_hash(&self) -> (r: InfoHash)
        ensures
            r == self.info_hash,
    {
        self.info_hash
    }

    /// The query as a bencode value, with its keys in ascending order.
    pub fn to_bencode(&self) -> (r: Bencode)
        ensures
            r@ == self.value(),
            r.wf(),
    {
        let mut args = Bencode::new_dict();
        put_bytes(&mut args, NODE_ID_KEY, self.node_id.as_bytes());
        put_bytes(&mut args, INFO_HASH_KEY, self.info_hash.as_bytes());
        build_request(self.trans_id, GET_PEERS_TYPE_KEY, args)
    }

    /// The query on the wire.
    pub fn encode(&self) -> (r: Vec<u8>)
        ensures
            r@ == encode_value(self.value()),
    {
        self.to_bencode().encode()
    }
}

/// What a response to `get_peers` tells besides the token.
#[derive(Copy, Clone, PartialEq, Eq, Debug)]
pub enum CompactInfoType<'a> {
    Nodes(CompactNodeInfo<'a>),
    Values(CompactValueInfo<'a>),
    Both(CompactNodeInfo<'a>, CompactValueInfo<'a>),
}

/// What a response to `get_peers` tells besides the token, as the model sees
/// it: the bytes of the nodes, the items of the values.
pub enum CompactInfoModel {
    Nodes(Seq<u8>),
    Values(Seq<BencodeValue>),
    Both(Seq<u8>, Seq<BencodeValue>),
}

impl<'a> View for CompactInfoType<'a> {
    type V = CompactInfoModel;

    open spec fn view(&self) -> CompactInfoModel {
        match self {
            CompactInfoType::Nodes(n) => CompactInfoModel::Nodes(n.nodes@),
            CompactInfoType::Values(v) => CompactInfoModel::Values(items_view(v.values@)),
            CompactInfoType::Both(n, v) => CompactInfoModel::Both(
                n.nodes@,
                items_view(v.values@),
            ),
        }
    }
}

impl<'a> CompactInfoType<'a> {
    /// The node information is a whole number of entries, and every value is
    /// a compact endpoint.
    pub open spec fn wf(&self) -> bool {
        match self {
            CompactInfoType::Nodes(n) => n.wf(),
            CompactInfoType::Values(v) => v.wf(),
            CompactInfoType::Both(n, v) => n.wf() && v.wf(),
        }
    }
}

/// The nodes and values of a response. A key counts where it holds a value of
/// the right kind: a byte string for `nodes`, a list for `values`. With
/// neither there is nothing to return; where both count, the nodes are
/// validated first.
pub open spec fn compact_info_of(root: BencodeValue, trans_id: Seq<u8>) -> Result<
    CompactInfoModel,
    DhtFault,
> {
    let maybe_nodes = bytes_at(root, key_of(NODES_KEY));
    let maybe_values = list_at(root, key_of(VALUES_KEY));
    match (maybe_nodes, maybe_values) {
        (Ok(nodes), Ok(values)) => match nodes_of(Side::Response, trans_id, nodes) {
            Err(fault) => Err(fault),
            Ok(n) => match values_of(Side::Response, trans_id, values) {
                Err(fault) => Err(fault),
                Ok(v) => Ok(CompactInfoModel::Both(n, v)),
            },
        },
        (Ok(nodes), Err(_)) => match nodes_of(Side::Response, trans_id, nodes) {
            Err(fault) => Err(fault),
            Ok(n) => Ok(CompactInfoModel::Nodes(n)),
        },
        (Err(_), Ok(values)) => match values_of(Side::Response, trans_id, values) {
            Err(fault) => Err(fault),
            Ok(v) => Ok(CompactInfoModel::Values(v)),
        },
        (Err(_), Err(_)) => Err(invalid(Side::Response, trans_id, DetailView::NoNodesOrValues)),
    }
}

/// What the values `root` of a response to `get_peers` hold: the node id, the
/// token (which may be missing) and the nodes and values, or the first fault
/// in this order.
pub open spec fn get_peers_response_of(root: BencodeValue, trans_id: Seq<u8>) -> Result<
    (Seq<u8>, Option<Seq<u8>>, CompactInfoModel),
    DhtFault,
> {
    match required_node_id(Side::Response, trans_id, root, key_of(NODE_ID_KEY)) {
        Err(fault) => Err(fault),
        Ok(node_id) => {
            let token = match bytes_at(root, key_of(TOKEN_KEY)) {
                Ok(t) => Some(t),
                Err(_) => None,
            };
            match compact_info_of(root, trans_id) {
                Err(fault) => Err(fault),
                Ok(info) => Ok((node_id, token, info)),
            }
        },
    }
}

/// The values of a response to `get_peers`.
pub open spec fn get_peers_values(
    node_id: Seq<u8>,
    token: Option<Seq<u8>>,
    info: CompactInfoModel,
) -> Entries {
    let with_id = insert_entry(Seq::empty(), key_of(NODE_ID_KEY), BencodeValue::Bytes(node_id));
    let with_token = match token {
        Some(t) => insert_entry(with_id, key_of(TOKEN_KEY), BencodeValue::Bytes(t)),
        None => with_id,
    };
    match info {
        CompactInfoModel::Nodes(n) => insert_entry(
            with_token,
            key_of(NODES_KEY),
            BencodeValue::Bytes(n),
        ),
        CompactInfoModel::Values(v) => insert_entry(
            with_token,
            key_of(VALUES_KEY),
            BencodeValue::List(v),
        ),
        CompactInfoModel::Both(n, v) => insert_entry(
            insert_entry(with_token, key_of(NODES_KEY), BencodeValue::Bytes(n)),
            key_of(VALUES_KEY),
            BencodeValue::List(v),
        ),
    }
}

/// The token that an optional slice holds.
pub open spec fn token_view(token: Option<&[u8]>) -> Option<Seq<u8>> {
    match token {
        Some(t) => Some(t@),
        None => None,
    }
}

#[derive(Copy, Clone, PartialEq, Eq, Debug)]
pub struct GetPeersResponse<'a> {
    pub trans_id: &'a [u8],
    pub node_id: NodeId,
    // It looks like bootstrap nodes do not have to send a token.
    pub token: Option<&'a [u8]>,
    pub info_type: CompactInfoType<'a>,
}

impl<'a> GetPeersResponse<'a> {
    /// The dictionary that the response is on the wire.
    pub open spec fn value(&self) -> BencodeValue {
        response_value(
            self.trans_id@,
            get_peers_values(self.node_id@, token_view(self.token), self.info_type@),
        )
    }

    pub fn new(
        trans_id: &'a [u8],
        node_id: NodeId,
        token: Option<&'a [u8]>,
        info_type: CompactInfoType<'a>,
    ) -> (r: GetPeersResponse<'a>)
        ensures
            r.trans_id@ == trans_id@,
            r.node_id == node_id,
            token_view(r.token) == token_view(token),
            r.info_type == info_type,
    {
        GetPeersResponse { trans_id, node_id, token, info_type }
    }

    /// Generate a `GetPeersResponse` from the values of a response.
    pub fn from_parts(rsp_root: &'a Bencode, trans_id: &'a [u8]) -> (r: Result<
        GetPeersResponse<'a>,
        DhtError,
    >)
        ensures
            match get_peers_response_of(rsp_root@, trans_id@) {
                Ok((node_id, token, info)) => r matches Ok(response) && response.trans_id@
                    == trans_id@ && response.node_id@ == node_id && token_view(response.token)
                    == token && response.info_type@ == info && response.info_type.wf(),
                Err(fault) => r matches Err(e) && e@ == fault,
            },
    {
        let validate = Validate::new(Side::Response, trans_id);
        let node_id = match validate.lookup_node_id(rsp_root, NODE_ID_KEY) {
            Ok(id) => id,
            Err(e) => {
                return Err(e);
            },
        };
        let token = match crate::bencode::convert::lookup_and_convert_bytes(
            rsp_root,
            TOKEN_KEY.as_bytes(),
        ) {
            Ok(t) => Some(t),
            Err(_) => None,
        };
        let maybe_nodes = crate::bencode::convert::lookup_and_convert_bytes(
            rsp_root,
            NODES_KEY.as_bytes(),
        );
        let maybe_values = crate::bencode::convert::lookup_and_convert_list(
            rsp_root,
            VALUES_KEY.as_bytes(),
        );
        let info_type = match (maybe_nodes, maybe_values) {
            (Ok(nodes), Ok(values)) => {
                let nodes_info = match validate.validate_nodes(nodes) {
                    Ok(n) => n,
                    Err(e) => {
                        return Err(e);
                    },
                };
                let values_info = match validate.validate_values(values) {
                    Ok(v) => v,
                    Err(e) => {
                        return Err(e);
                    },
                };
                CompactInfoType::Both(nodes_info, values_info)
            },
            (Ok(nodes), Err(_)) => {
                match validate.validate_nodes(nodes) {
                    Ok(n) => CompactInfoType::Nodes(n),
                    Err(e) => {
                        return Err(e);
                    },
                }
            },
            (Err(_), Ok(values)) => {
                match validate.validate_values(values) {
                    Ok(v) => CompactInfoType::Values(v),
                    Err(e) => {
                        return Err(e);
                    },
                }
            },
            (Err(_), Err(_)) => {
                return Err(invalid_message(Side::Response, trans_id, Detail::NoNodesOrValues));
            },
        };
        Ok(GetPeersResponse::new(trans_id, node_id, token, info_type))
    }

    pub fn transaction_id(&self) -> (r: &'a [u8])
        ensures
            r@ == self.trans_id@,
    {
        self.trans_id
    }

    pub fn node_id(&self) -> (r: NodeId)
        ensures
            r == self.node_id,
    {
        self.node_id
    }

    pub fn token(&self) -> (r: Option<&'a [u8]>)
        ensures
            token_view(r) == token_view(self.token),
    {
        self.token
    }

    pub fn info_type(&self) -> (r: CompactInfoType<'a>)
        ensures
            r == self.info_type,
    {
        self.info_type
    }

    /// The response as a bencode value, with its keys in ascending order
    /// where the compact values are in order.
    pub fn to_bencode(&self) -> (r: Bencode)
        ensures
            r@ == self.value(),
            self.info_type.wf() ==> r.wf(),
    {
        proof {
            match self.info_type {
                CompactInfoType::Values(peers) => {
                    lemma_values_wf(items_view(peers.values@));
                },
                CompactInfoType::Both(_, peers) => {
                    lemma_values_wf(items_view(peers.values@));
                },
                _ => {},
            }
        }
        let mut values = Bencode::new_dict();
        put_bytes(&mut values, NODE_ID_KEY, self.node_id.as_bytes());
        match self.token {
            Some(token) => {
                put_bytes(&mut values, TOKEN_KEY, token);
            },
            None => {},
        }
        match self.info_type {
            CompactInfoType::Nodes(nodes) => {
                put_bytes(&mut values, NODES_KEY, nodes.nodes());
            },
            CompactInfoType::Values(peers) => {
                values.insert(key_bytes(VALUES_KEY), copy_list(peers.values()));
            },
            CompactInfoType::Both(nodes, peers) => {
                put_bytes(&mut values, NODES_KEY, nodes.nodes());
                values.insert(key_bytes(VALUES_KEY), copy_list(peers.values()));
            },
        }
        build_response(self.trans_id, values)
    }

    /// The response on the wire.
    pub fn encode(&self) -> (r: Vec<u8>)
        ensures
            r@ == encode_value(self.value()),
    {
        self.to_bencode().encode()
    }
}

/// A list of compact values has no dictionary inside, so none out of order.
proof fn lemma_values_wf(values: Seq<BencodeValue>)
    ensures
        crate::dht::message::compact_info::values_wf(values) ==> crate::bencode::value::value_wf(
            BencodeValue::List(values),
        ),
{
    if crate::dht::message::compact_info::values_wf(values) {
        assert forall|i: int| 0 <= i < values.len() implies crate::bencode::value::value_wf(
            #[trigger] values[i],
        ) by {
            assert(values[i] is Bytes);
        }
    }
}

/// A list with copies of `items`.
fn copy_list(items: &Vec<Bencode>) -> (r: Bencode)
    ensures
        r@ == BencodeValue::List(items_view(items@)),
{
    let mut list: Vec<Bencode> = Vec::new();
    let mut i: usize = 0;
    while i < items.len()
        invariant
            i <= items.len(),
            list@.len() == i,
            forall|j: int| 0 <= j < i ==> (#[trigger] list@[j])@ == items@[j]@,
        decreases items.len() - i,
    {
        list.push(items[i].duplicate());
        i += 1;
    }
    let r = Bencode::List(list);
    assert(r@->List_0 =~= items_view(items@));
    r
}

} // verus!
