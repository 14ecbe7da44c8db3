//! The `announce_peer` query and its response.
//!
//! A node announces that it takes part in a torrent, on a port of its own
//! choice or on the port that its datagram came from. The query returns the
//! token that an earlier `get_peers` handed out.

use crate::bencode::convert::entry_of;
use crate::bencode::encode::encode_value;
use crate::bencode::text::key_of;
use crate::bencode::value::{insert_entry, Bencode, BencodeValue, Entries};
use crate::dht::error::{DhtError, DhtFault, Side};
use crate::dht::message::validate::{
    required_bytes, required_info_hash, required_int, required_node_id, Validate,
};
use crate::dht::message::{
    build_request, build_response, put_bytes, put_int, request_value, response_value,
    ANNOUNCE_PEER_TYPE_KEY, IMPLIED_PORT_KEY, INFO_HASH_KEY, NODE_ID_KEY, PORT_KEY, TOKEN_KEY,
};
use crate::util::bt::{InfoHash, NodeId};
use vstd::prelude::*;

verus! {

/// The port on which an announcing peer can be reached.
#[derive(Copy, Clone, PartialEq, Eq, Hash, Debug)]
pub enum ConnectPort {
    /// The port that the datagram of the query came from.
    Implied,
    /// The port that the query names.
    Explicit(u16),
}

/// The port that the integer `port` of a query names: its magnitude, of which
/// the low sixteen bits count.
pub open spec fn port_of(port: i64) -> u16 {
    if port >= 0 {
        (port % 0x1_0000) as u16
    } else {
        ((-port) % 0x1_0000) as u16
    }
}

/// Whether the arguments `root` ask for the sender's port: `implied_port` is
/// an integer other than zero.
pub open spec fn port_is_implied(root: BencodeValue) -> bool {
    match entry_of(root, key_of(IMPLIED_PORT_KEY)) {
        Some(BencodeValue::Int(n)) => n != 0,
        _ => false,
    }
}

/// What the arguments `root` of an `announce_peer` query hold: node id, info
/// hash, token and port, or the first fault in this order. The port is looked
/// up only where it is not implied.
pub open spec fn announce_peer_request_of(root: BencodeValue, trans_id: Seq<u8>) -> Result<
    (Seq<u8>, Seq<u8>, Seq<u8>, ConnectPort),
    DhtFault,
> {
    match required_node_id(Side::Request, trans_id, root, key_of(NODE_ID_KEY)) {
        Err(fault) => Err(fault),
        Ok(node_id) => match required_info_hash(
            Side::Request,
            trans_id,
            root,
            key_of(INFO_HASH_KEY),
        ) {
            Err(fault) => Err(fault),
            Ok(info_hash) => match required_bytes(Side::Request, trans_id, root, key_of(TOKEN_KEY)) {
                Err(fault) => Err(fault),
                Ok(token) => if port_is_implied(root) {
                    Ok((node_id, info_hash, token, ConnectPort::Implied))
                } else {
                    match required_int(Side::Request, trans_id, root, key_of(PORT_KEY)) {
                        Err(fault) => Err(fault),
                        Ok(port) => Ok(
                            (node_id, info_hash, token, ConnectPort::Explicit(port_of(port))),
                        ),
                    }
                },
            },
        },
    }
}

/// The arguments of an `announce_peer` query. Both `port` and `implied_port`
/// are always there: an implied port shows as port 0 with the flag 1, so that
/// receivers that insist on a port find one.
pub open spec fn announce_peer_args(
    node_id: Seq<u8>,
    info_hash: Seq<u8>,
    token: Seq<u8>,
    port: ConnectPort,
) -> Entries {
    let (displayed_port, implied_value) = match port {
        ConnectPort::Implied => (0i64, 1i64),
        ConnectPort::Explicit(n) => (n as i64, 0i64),
    };
    insert_entry(
        insert_entry(
            insert_entry(
                insert_entry(
                    insert_entry(Seq::empty(), key_of(NODE_ID_KEY), BencodeValue::Bytes(node_id)),
                    key_of(IMPLIED_PORT_KEY),
                    BencodeValue::Int(implied_value),
                ),
                key_of(INFO_HASH_KEY),
                BencodeValue::Bytes(info_hash),
            ),
            key_of(PORT_KEY),
            BencodeValue::Int(displayed_port),
        ),
        key_of(TOKEN_KEY),
        BencodeValue::Bytes(token),
    )
}

/// The port that the integer `port` of a query names.
fn port_number(port: i64) -> (r: u16)
    ensures
        r == port_of(port),
{
    let magnitude: u64 = if port >= 0 {
        port as u64
    } else {
        (-(port + 1)) as u64 + 1
    };
    (magnitude % 0x1_0000) as u16
}

#[derive(Copy, Clone, PartialEq, Eq, Hash, Debug)]
pub struct AnnouncePeerRequest<'a> {
    pub trans_id: &'a [u8],
    pub node_id: NodeId,
    pub info_hash: InfoHash,
    pub token: &'a [u8],
    pub port: ConnectPort,
}

impl<'a> AnnouncePeerRequest<'a> {
    /// The dictionary that the query is on the wire.
    pub open spec fn value(&self) -> BencodeValue {
        request_value(
            self.trans_id@,
            ANNOUNCE_PEER_TYPE_KEY@,
            announce_peer_args(self.node_id@, self.info_hash@, self.token@, self.port),
        )
    }

    pub fn new(
        trans_id: &'a [u8],
        node_id: NodeId,
        info_hash: InfoHash,
        token: &'a [u8],
        port: ConnectPort,
    ) -> (r: AnnouncePeerRequest<'a>)
        ensures
            r.trans_id@ == trans_id@,
            r.node_id == node_id,
            r.info_hash == info_hash,
            r.token@ == token@,
            r.port == port,
    {
        AnnouncePeerRequest { trans_id, node_id, info_hash, token, port }
    }

    /// Generate a `AnnouncePeerRequest` from the arguments of a query.
    pub fn from_parts(rqst_root: &'a Bencode, trans_id: &'a [u8]) -> (r: Result<
        AnnouncePeerRequest<'a>,
        DhtError,
    >)
        ensures
            match announce_peer_request_of(rqst_root@, trans_id@) {
                Ok((node_id, info_hash, token, port)) => r matches Ok(request)
                    && request.trans_id@ == trans_id@ && request.node_id@ == node_id
                    && request.info_hash@ == info_hash && request.token@ == token && request.port
                    == port,
                Err(fault) => r matches Err(e) && e@ == fault,
            },
    {
        let validate = Validate::new(Side::Request, trans_id);
        let node_id = match validate.lookup_node_id(rqst_root, NODE_ID_KEY) {
            Ok(id) => id,
            Err(e) => {
                return Err(e);
            },
        };
        let info_hash = match validate.lookup_info_hash(rqst_root, INFO_HASH_KEY) {
            Ok(hash) => hash,
            Err(e) => {
                return Err(e);
            },
        };
        let token = match validate.lookup_and_convert_bytes(rqst_root, TOKEN_KEY) {
            Ok(token) => token,
            Err(e) => {
                return Err(e);
            },
        };
        // The protocol says that the flag is either 0 or 1, and then that a
        // value other than zero means the source port. Values other than 0
        // and 1 are taken so.
        let implied = match rqst_root.lookup(IMPLIED_PORT_KEY.as_bytes()) {
            Some(value) => match value.as_int() {
                Some(n) => n != 0,
                None => false,
            },
            None => false,
        };
        let response_port = if implied {
            ConnectPort::Implied
        } else {
            // Here the port either was not implied, or the flag was of the
            // wrong type: the port has to be there.
            match validate.lookup_and_convert_int(rqst_root, PORT_KEY) {
                Ok(port) => ConnectPort::Explicit(port_number(port)),
                Err(e) => {
                    return Err(e);
                },
            }
        };
        Ok(AnnouncePeerRequest::new(trans_id, node_id, info_hash, token, response_port))
    }

    pub fn transaction_id(&self) -> (r: &'a [u8])
        ensures
            r@ == self.trans_id@,
    {
        self.trans_id
    }

    pub fn node_id(&self) -> (r: NodeId)
        ensures
            r == self.node_id,
    {
        self.node_id
    }

    pub fn info_hash(&self) -> (r: InfoHash)
        ensures
            r == self.info_hash,
    {
        self.info_hash
    }

    pub fn token(&self) -> (r: &'a [u8])
        ensures
            r@ == self.token@,
    {
        self.token
    }

    pub fn connect_port(&self) -> (r: ConnectPort)
        ensures
            r == self.port,
    {
        self.port
    }

    /// The query as a bencode value, with its keys in ascending order.
    pub fn to_bencode(&self) -> (r: Bencode)
        ensures
            r@ == self.value(),
            r.wf(),
    {
        // In case a client errors out when the port key is not present, even
        // when implied port is specified, we provide a dummy value in that
        // case.
        let (displayed_port, implied_value): (i64, i64) = match self.port {
            ConnectPort::Implied => (0, 1),
            ConnectPort::Explicit(n) => (n as i64, 0),
        };
        let mut args = Bencode::new_dict();
        put_bytes(&mut args, NODE_ID_KEY, self.node_id.as_bytes());
        put_int(&mut args, IMPLIED_PORT_KEY, implied_value);
        put_bytes(&mut args, INFO_HASH_KEY, self.info_hash.as_bytes());
        put_int(&mut args, PORT_KEY, displayed_port);
        put_bytes(&mut args, TOKEN_KEY, self.token);
        build_request(self.trans_id, ANNOUNCE_PEER_TYPE_KEY, args)
    }

    /// The query on the wire.
    pub fn encode(&self) -> (r: Vec<u8>)
        ensures
            r@ == encode_value(self.value()),
    {
        self.to_bencode().encode()
    }
}

/// What the values `root` of a response to `announce_peer` hold: the node id,
/// or the fault of looking it up.
pub open spec fn announce_peer_response_of(root: BencodeValue, trans_id: Seq<u8>) -> Result<
    Seq<u8>,
    DhtFault,
> {
    required_node_id(Side::Response, trans_id, root, key_of(NODE_ID_KEY))
}

/// The values of a response that holds only the id of the responding node.
pub open spec fn node_id_values(node_id: Seq<u8>) -> Entries {
    insert_entry(Seq::empty(), key_of(NODE_ID_KEY), BencodeValue::Bytes(node_id))
}

#[derive(Copy, Clone, PartialEq, Eq, Hash, Debug)]
pub struct AnnouncePeerResponse<'a> {
    pub trans_id: &'a [u8],
    pub node_id: NodeId,
}

impl<'a> AnnouncePeerResponse<'a> {
    /// The dictionary that the response is on the wire.
    pub open spec fn value(&self) -> BencodeValue {
        response_value(self.trans_id@, node_id_values(self.node_id@))
    }

    pub fn new(trans_id: &'a [u8], node_id: NodeId) -> (r: AnnouncePeerResponse<'a>)
        ensures
            r.trans_id@ == trans_id@,
            r.node_id == node_id,
    {
        AnnouncePeerResponse { trans_id, node_id }
    }

    /// Generate a `AnnouncePeerResponse` from the values of a response.
    pub fn from_parts(rqst_root: &Bencode, trans_id: &'a [u8]) -> (r: Result<
        AnnouncePeerResponse<'a>,
        DhtError,
    >)
        ensures
            match announce_peer_response_of(rqst_root@, trans_id@) {
                Ok(node_id) => r matches Ok(response) && response.trans_id@ == trans_id@
                    && response.node_id@ == node_id,
                Err(fault) => r matches Err(e) && e@ == fault,
            },
    {
        let validate = Validate::new(Side::Response, trans_id);
        match validate.lookup_node_id(rqst_root, NODE_ID_KEY) {
            Ok(node_id) => Ok(AnnouncePeerResponse::new(trans_id, node_id)),
            Err(e) => Err(e),
        }
    }

    pub fn transaction_id(&self) -> (r: &'a [u8])
        ensures
            r@ == self.trans_id@,
    {
        self.trans_id
    }

    pub fn node_id(&self) -> (r: NodeId)
        ensures
            r == self.node_id,
    {
        self.node_id
    }

    /// The response as a bencode value, with its keys in ascending order.
    pub fn to_bencode(&self) -> (r: Bencode)
        ensures
            r@ == self.value(),
            r.wf(),
    {
        let mut values = Bencode::new_dict();
        put_bytes(&mut values, NODE_ID_KEY, self.node_id.as_bytes());
        build_response(self.trans_id, values)
    }

    /// The response on the wire.
    pub fn encode(&self) -> (r: Vec<u8>)
        ensures
            r@ == encode_value(self.value()),
    {
        self.to_bencode().encode()
    }
}

} // verus!
