//! The `ping` query and its response: each holds only the sender's node id.

use crate::bencode::encode::encode_value;
use crate::bencode::text::key_of;
use crate::bencode::value::{Bencode, BencodeValue};
use crate::dht::error::{DhtError, DhtFault, Side};
use crate::dht::message::announce_peer::node_id_values;
use crate::dht::message::validate::{required_node_id, Validate};
use crate::dht::message::{
    build_request, build_response, put_bytes, request_value, response_value, NODE_ID_KEY,
    PING_TYPE_KEY,
};
use crate::util::bt::NodeId;
use vstd::prelude::*;

verus! {

/// What the arguments or values `root` of a ping hold: the node id, or the
/// fault of looking it up.
pub open spec fn ping_of(side: Side, root: BencodeValue, trans_id: Seq<u8>) -> Result<
    Seq<u8>,
    DhtFault,
> {
    required_node_id(side, trans_id, root, key_of(NODE_ID_KEY))
}

#[derive(Copy, Clone, PartialEq, Eq, Hash, Debug)]
pub struct PingRequest<'a> {
    pub trans_id: &'a [u8],
    pub node_id: NodeId,
}

impl<'a> PingRequest<'a> {
    /// The dictionary that the query is on the wire.
    pub open spec fn value(&self) -> BencodeValue {
        request_value(self.trans_id@, PING_TYPE_KEY@, node_id_values(self.node_id@))
    }

    pub fn new(trans_id: &'a [u8], node_id: NodeId) -> (r: PingRequest<'a>)
        ensures
            r.trans_id@ == trans_id@,
            r.node_id == node_id,
    {
        PingRequest { trans_id, node_id }
    }

    /// Generate a `PingRequest` from the arguments of a query.
    pub fn from_parts(rqst_root: &Bencode, trans_id: &'a [u8]) -> (r: Result<
        PingRequest<'a>,
        DhtError,
    >)
        ensures
            match ping_of(Side::Request, rqst_root@, trans_id@) {
                Ok(node_id) => r matches Ok(request) && request.trans_id@ == trans_id@
                    && request.node_id@ == node_id,
                Err(fault) => r matches Err(e) && e@ == fault,
            },
    {
        let validate = Validate::new(Side::Request, trans_id);
        match validate.lookup_node_id(rqst_root, NODE_ID_KEY) {
            Ok(node_id) => Ok(PingRequest::new(trans_id, node_id)),
            Err(e) => Err(e),
        }
    }

    pub fn transaction_id(&self) -> (r: &'a [u8])
        ensures
            r@ == self.trans_id@,
    {
        self.trans_id
    }

    pub fn node_id(&self) -> (r: NodeId)
        ensures
            r == self.node_id,
    {
        self.node_id
    }

    /// The query as a bencode value, with its keys in ascending order.
    pub fn to_bencode(&self) -> (r: Bencode)
        ensures
            r@ == self.value(),
            r.wf(),
    {
        let mut args = Bencode::new_dict();
        put_bytes(&mut args, NODE_ID_KEY, self.node_id.as_bytes());
        build_request(self.trans_id, PING_TYPE_KEY, args)
    }

    /// The query on the wire.
    pub fn encode(&self) -> (r: Vec<u8>)
        ensures
            r@ == encode_value(self.value()),
    {
        self.to_bencode().encode()
    }
}

#[derive(Copy, Clone, PartialEq, Eq, Hash, Debug)]
pub struct PingResponse<'a> {
    pub trans_id: &'a [u8],
    pub node_id: NodeId,
}

impl<'a> PingResponse<'a> {
    /// The dictionary that the response is on the wire.
    pub open spec fn value(&self) -> BencodeValue {
        response_value(self.trans_id@, node_id_values(self.node_id@))
    }

    pub fn new(trans_id: &'a [u8], node_id: NodeId) -> (r: PingResponse<'a>)
        ensures
            r.trans_id@ == trans_id@,
            r.node_id == node_id,
    {
        PingResponse { trans_id, node_id }
    }

    /// Generate a `PingResponse` from the values of a response.
    pub fn from_parts(rsp_root: &Bencode, trans_id: &'a [u8]) -> (r: Result<
        PingResponse<'a>,
        DhtError,
    >)
        ensures
            match ping_of(Side::Response, rsp_root@, trans_id@) {
                Ok(node_id) => r matches Ok(response) && response.trans_id@ == trans_id@
                    && response.node_id@ == node_id,
                Err(fault) => r matches Err(e) && e@ == fault,
            },
    {
        let validate = Validate::new(Side::Response, trans_id);
        match validate.lookup_node_id(rsp_root, NODE_ID_KEY) {
            Ok(node_id) => Ok(PingResponse::new(trans_id, node_id)),
            Err(e) => Err(e),
        }
    }

    pub fn transaction_id(&self) -> (r: &'a [u8])
        ensures
            r@ == self.trans_id@,
    {
        self.trans_id
    }

    pub fn node_id(&self) -> (r: NodeId)
        ensures
            r == self.node_id,
    {
        self.node_id
    }

    /// The response as a bencode value, with its keys in ascending order.
    pub fn to_bencode(&self) -> (r: Bencode)
        ensures
            r@ == self.value(),
            r.wf(),
    {
        let mut values = Bencode::new_dict();
        put_bytes(&mut values, NODE_ID_KEY, self.node_id.as_bytes());
        build_response(self.trans_id, values)
    }

    /// The response on the wire.
    pub fn encode(&self) -> (r: Vec<u8>)
        ensures
            r@ == encode_value(self.value()),
    {
        self.to_bencode().encode()
    }
}

} // verus!
