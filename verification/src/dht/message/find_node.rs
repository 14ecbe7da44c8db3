//! The `find_node` query and its response.
//!
//! The query names the id that is looked for; the response holds compact
//! information on the nodes closest to it that the responding node knows.

use crate::bencode::encode::encode_value;
use crate::bencode::text::key_of;
use crate::bencode::value::{insert_entry, Bencode, BencodeValue, Entries};
use crate::dht::error::{DhtError, DhtFault, Side};
use crate::dht::message::compact_info::CompactNodeInfo;
use crate::dht::message::validate::{nodes_of, required_bytes, required_node_id, Validate};
use crate::dht::message::{
    build_request, build_response, put_bytes, request_value, response_value,
    FIND_NODE_TYPE_KEY, NODES_KEY, NODE_ID_KEY, TARGET_ID_KEY,
};
use crate::util::bt::NodeId;
use vstd::prelude::*;

verus! {

/// What the arguments `root` of a `find_node` query hold: the node id and the
/// target id, or the first fault in this order.
pub open spec fn find_node_request_of(root: BencodeValue, trans_id: Seq<u8>) -> Result<
    (Seq<u8>, Seq<u8>),
    DhtFault,
> {
    match required_node_id(Side::Request, trans_id, root, key_of(NODE_ID_KEY)) {
        Err(fault) => Err(fault),
        Ok(node_id) => match required_node_id(
            Side::Request,
            trans_id,
            root,
            key_of(TARGET_ID_KEY),
        ) {
            Err(fault) => Err(fault),
            Ok(target_id) => Ok((node_id, target_id)),
        },
    }
}

/// What the values `root` of a response to `find_node` hold: the node id and
/// the compact node information, or the first fault in this order.
pub open spec fn find_node_response_of(root: BencodeValue, trans_id: Seq<u8>) -> Result<
    (Seq<u8>, Seq<u8>),
    DhtFault,
> {
    match required_node_id(Side::Response, trans_id, root, key_of(NODE_ID_KEY)) {
        Err(fault) => Err(fault),
        Ok(node_id) => match required_bytes(Side::Response, trans_id, root, key_of(NODES_KEY)) {
            Err(fault) => Err(fault),
            Ok(bytes) => match nodes_of(Side::Response, trans_id, bytes) {
                Err(fault) => Err(fault),
                Ok(nodes) => Ok((node_id, nodes)),
            },
        },
    }
}

/// The arguments of a `find_node` query.
pub open spec fn find_node_args(node_id: Seq<u8>, target_id: Seq<u8>) -> Entries {
    insert_entry(
        insert_entry(Seq::empty(), key_of(NODE_ID_KEY), BencodeValue::Bytes(node_id)),
        key_of(TARGET_ID_KEY),
        BencodeValue::Bytes(target_id),
    )
}

/// The values of a response to `find_node`.
pub open spec fn find_node_values(node_id: Seq<u8>, nodes: Seq<u8>) -> Entries {
    insert_entry(
        insert_entry(Seq::empty(), key_of(NODE_ID_KEY), BencodeValue::Bytes(node_id)),
        key_of(NODES_KEY),
        BencodeValue::Bytes(nodes),
    )
}

#[derive(Copy, Clone, PartialEq, Eq, Hash, Debug)]
pub struct FindNodeRequest<'a> {
    pub trans_id: &'a [u8],
    pub node_id: NodeId,
    pub target_id: NodeId,
}

impl<'a> FindNodeRequest<'a> {
    /// The dictionary that the query is on the wire.
    pub open spec fn value(&self) -> BencodeValue {
        request_value(
            self.trans_id@,
            FIND_NODE_TYPE_KEY@,
            find_node_args(self.node_id@, self.target_id@),
        )
    }

    pub fn new(trans_id: &'a [u8], node_id: NodeId, target_id: NodeId) -> (r: FindNodeRequest<'a>)
        ensures
            r.trans_id@ == trans_id@,
            r.node_id == node_id,
            r.target_id == target_id,
    {
        FindNodeRequest { trans_id, node_id, target_id }
    }

    /// Generate a `FindNodeRequest` from the arguments of a query.
    pub fn from_parts(rqst_root: &Bencode, trans_id: &'a [u8]) -> (r: Result<
        FindNodeRequest<'a>,
        DhtError,
    >)
        ensures
            match find_node_request_of(rqst_root@, trans_id@) {
                Ok((node_id, target_id)) => r matches Ok(request) && request.trans_id@ == trans_id@
                    && request.node_id@ == node_id && request.target_id@ == target_id,
                Err(fault) => r matches Err(e) && e@ == fault,
            },
    {
        let validate = Validate::new(Side::Request, trans_id);
        let node_id = match validate.lookup_node_id(rqst_root, NODE_ID_KEY) {
            Ok(id) => id,
            Err(e) => {
                return Err(e);
            },
        };
        let target_id = match validate.lookup_node_id(rqst_root, TARGET_ID_KEY) {
            Ok(id) => id,
            Err(e) => {
                return Err(e);
            },
        };
        Ok(FindNodeRequest::new(trans_id, node_id, target_id))
    }

    pub fn transaction_id(&self) -> (r: &'a [u8])
        ensures
            r@ == self.trans_id@,
    {
        self.trans_id
    }

    pub fn node_id(&self) -> (r: NodeId)
        ensures
            r == self.node_id,
    {
        self.node_id
    }

    pub fn target_id(&self) -> (r: NodeId)
        ensures
            r == self.target_id,
    {
        self.target_id
    }

    /// The query as a bencode value, with its keys in ascending order.
    pub fn to_bencode(&self) -> (r: Bencode)
        ensures
            r@ == self.value(),
            r.wf(),
    {
        let mut args = Bencode::new_dict();
        put_bytes(&mut args, NODE_ID_KEY, self.node_id.as_bytes());
        put_bytes(&mut args, TARGET_ID_KEY, self.target_id.as_bytes());
        build_request(self.trans_id, FIND_NODE_TYPE_KEY, args)
    }

    /// The query on the wire.
    pub fn encode(&self) -> (r: Vec<u8>)
        ensures
            r@ == encode_value(self.value()),
    {
        self.to_bencode().encode()
    }
}

#[derive(Copy, Clone, PartialEq, Eq, Debug)]
pub struct FindNodeResponse<'a> {
    pub trans_id: &'a [u8],
    pub node_id: NodeId,
    pub nodes: CompactNodeInfo<'a>,
}

impl<'a> FindNodeResponse<'a> {
    /// The dictionary that the response is on the wire.
    pub open spec fn value(&self) -> BencodeValue {
        response_value(self.trans_id@, find_node_values(self.node_id@, self.nodes.nodes@))
    }

    /// Create a new `FindNodeResponse` over the compact node information
    /// `nodes`, whose length must be a multiple of 26.
    pub fn new(trans_id: &'a [u8], node_id: NodeId, nodes: &'a [u8]) -> (r: Result<
        FindNodeResponse<'a>,
        DhtError,
    >)
        ensures
            match nodes_of(Side::Response, trans_id@, nodes@) {
                Ok(bytes) => r matches Ok(response) && response.trans_id@ == trans_id@
                    && response.node_id == node_id && response.nodes.nodes@ == bytes
                    && response.nodes.wf(),
                Err(fault) => r matches Err(e) && e@ == fault,
            },
    {
        let validate = Validate::new(Side::Response, trans_id);
        match validate.validate_nodes(nodes) {
            Ok(nodes) => Ok(FindNodeResponse { trans_id, node_id, nodes }),
            Err(e) => Err(e),
        }
    }

    /// Generate a `FindNodeResponse` from the values of a response.
    pub fn from_parts(rsp_root: &'a Bencode, trans_id: &'a [u8]) -> (r: Result<
        FindNodeResponse<'a>,
        DhtError,
    >)
        ensures
            match find_node_response_of(rsp_root@, trans_id@) {
                Ok((node_id, nodes)) => r matches Ok(response) && response.trans_id@ == trans_id@
                    && response.node_id@ == node_id && response.nodes.nodes@ == nodes
                    && response.nodes.wf(),
                Err(fault) => r matches Err(e) && e@ == fault,
            },
    {
        let validate = Validate::new(Side::Response, trans_id);
        let node_id = match validate.lookup_node_id(rsp_root, NODE_ID_KEY) {
            Ok(id) => id,
            Err(e) => {
                return Err(e);
            },
        };
        let nodes = match validate.lookup_and_convert_bytes(rsp_root, NODES_KEY) {
            Ok(bytes) => bytes,
            Err(e) => {
                return Err(e);
            },
        };
        match validate.validate_nodes(nodes) {
            Ok(nodes) => Ok(FindNodeResponse { trans_id, node_id, nodes }),
            Err(e) => Err(e),
        }
    }

    pub fn transaction_id(&self) -> (r: &'a [u8])
        ensures
            r@ == self.trans_id@,
    {
        self.trans_id
    }

    pub fn node_id(&self) -> (r: NodeId)
        ensures
            r == self.node_id,
    {
        self.node_id
    }

    pub fn nodes(&self) -> (r: CompactNodeInfo<'a>)
        ensures
            r == self.nodes,
    {
        self.nodes
    }

    /// The response as a bencode value, with its keys in ascending order.
    pub fn to_bencode(&self) -> (r: Bencode)
        ensures
            r@ == self.value(),
            r.wf(),
    {
        let mut values = Bencode::new_dict();
        put_bytes(&mut values, NODE_ID_KEY, self.node_id.as_bytes());
        put_bytes(&mut values, NODES_KEY, self.nodes.nodes());
        build_response(self.trans_id, values)
    }

    /// The response on the wire.
    pub fn encode(&self) -> (r: Vec<u8>)
        ensures
            r@ == encode_value(self.value()),
    {
        self.to_bencode().encode()
    }
}

} // verus!
