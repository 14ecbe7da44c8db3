//! Queries, responses and errors, each a bencoded dictionary with the keys
//! `t` (transaction id) and `y` (type of message).

pub mod announce_peer;
pub mod compact_info;
pub mod envelope;
pub mod find_node;
pub mod get_peers;
pub mod keys;
pub mod laws;
pub mod ping;
pub mod request;
pub mod response;
pub mod validate;

use crate::bencode::text::{key_bytes, key_of, text_model, text_value};
use crate::bencode::value::{insert_entry, Bencode, BencodeValue, Entries};
use vstd::prelude::*;

verus! {

/// Key for the version of the client.
pub const CLIENT_TYPE_KEY: &'static str = "v";

/// Key for the type of message.
pub const MESSAGE_TYPE_KEY: &'static str = "y";

/// Key for the transaction id.
pub const TRANSACTION_ID_KEY: &'static str = "t";

/// Type of a query, and key for the kind of query.
pub const REQUEST_TYPE_KEY: &'static str = "q";

/// Type of a response, and key for its values.
pub const RESPONSE_TYPE_KEY: &'static str = "r";

/// Type of an error, and key for its code and message.
pub const ERROR_TYPE_KEY: &'static str = "e";

/// Key for the arguments of a query.
pub const REQUEST_ARGS_KEY: &'static str = "a";

/// Key for the id of the node that sent the message.
pub const NODE_ID_KEY: &'static str = "id";

/// Key for compact node information.
pub const NODES_KEY: &'static str = "nodes";

/// Key for a list of compact peer endpoints.
pub const VALUES_KEY: &'static str = "values";

/// Key for the id that `find_node` looks for.
pub const TARGET_ID_KEY: &'static str = "target";

/// Key for the info hash of a torrent.
pub const INFO_HASH_KEY: &'static str = "info_hash";

/// Key for the token that `get_peers` hands out and `announce_peer` returns.
pub const TOKEN_KEY: &'static str = "token";

/// Key for the port of an announce.
pub const PORT_KEY: &'static str = "port";

/// Key for the flag that tells the receiver to take the sender's port.
pub const IMPLIED_PORT_KEY: &'static str = "implied_port";

/// Kind of query: ping.
pub const PING_TYPE_KEY: &'static str = "ping";

/// Kind of query: find node.
pub const FIND_NODE_TYPE_KEY: &'static str = "find_node";

/// Kind of query: get peers.
pub const GET_PEERS_TYPE_KEY: &'static str = "get_peers";

/// Kind of query: announce peer.
pub const ANNOUNCE_PEER_TYPE_KEY: &'static str = "announce_peer";

/// The dictionary of a query: transaction id, type `q`, kind of query and
/// arguments.
pub open spec fn request_value(trans_id: Seq<u8>, query: Seq<char>, args: Entries) -> BencodeValue {
    BencodeValue::Dict(
        insert_entry(
            insert_entry(
                insert_entry(
                    insert_entry(
                        Seq::empty(),
                        key_of(TRANSACTION_ID_KEY),
                        BencodeValue::Bytes(trans_id),
                    ),
                    key_of(MESSAGE_TYPE_KEY),
                    text_model(REQUEST_TYPE_KEY@),
                ),
                key_of(REQUEST_TYPE_KEY),
                text_model(query),
            ),
            key_of(REQUEST_ARGS_KEY),
            BencodeValue::Dict(args),
        ),
    )
}

/// The dictionary of a response: transaction id, type `r` and values.
pub open spec fn response_value(trans_id: Seq<u8>, values: Entries) -> BencodeValue {
    BencodeValue::Dict(
        insert_entry(
            insert_entry(
                insert_entry(
                    Seq::empty(),
                    key_of(TRANSACTION_ID_KEY),
                    BencodeValue::Bytes(trans_id),
                ),
                key_of(MESSAGE_TYPE_KEY),
                text_model(RESPONSE_TYPE_KEY@),
            ),
            key_of(RESPONSE_TYPE_KEY),
            BencodeValue::Dict(values),
        ),
    )
}

/// The dictionary of a query with the arguments `args`.
pub fn build_request(trans_id: &[u8], query: &str, args: Bencode) -> (r: Bencode)
    requires
        args@ is Dict,
    ensures
        r@ == request_value(trans_id@, query@, args@->Dict_0),
        args.wf() ==> r.wf(),
{
    let mut root = Bencode::new_dict();
    root.insert(
        key_bytes(TRANSACTION_ID_KEY),
        Bencode::new_bytes(crate::util::convert::copy_bytes(trans_id)),
    );
    root.insert(key_bytes(MESSAGE_TYPE_KEY), text_value(REQUEST_TYPE_KEY));
    root.insert(key_bytes(REQUEST_TYPE_KEY), text_value(query));
    root.insert(key_bytes(REQUEST_ARGS_KEY), args);
    root
}

/// The dictionary of a response with the values `values`.
pub fn build_response(trans_id: &[u8], values: Bencode) -> (r: Bencode)
    requires
        values@ is Dict,
    ensures
        r@ == response_value(trans_id@, values@->Dict_0),
        values.wf() ==> r.wf(),
{
    let mut root = Bencode::new_dict();
    root.insert(
        key_bytes(TRANSACTION_ID_KEY),
        Bencode::new_bytes(crate::util::convert::copy_bytes(trans_id)),
    );
    root.insert(key_bytes(MESSAGE_TYPE_KEY), text_value(RESPONSE_TYPE_KEY));
    root.insert(key_bytes(RESPONSE_TYPE_KEY), values);
    root
}

/// Stores the byte string `value` under `key` of the dictionary `dict`.
pub fn put_bytes(dict: &mut Bencode, key: &str, value: &[u8])
    requires
        old(dict)@ is Dict,
    ensures
        final(dict)@ == BencodeValue::Dict(
            insert_entry(old(dict)@->Dict_0, key_of(key), BencodeValue::Bytes(value@)),
        ),
        old(dict).wf() ==> final(dict).wf(),
{
    dict.insert(key_bytes(key), Bencode::new_bytes(crate::util::convert::copy_bytes(value)));
}

/// Stores the integer `value` under `key` of the dictionary `dict`.
pub fn put_int(dict: &mut Bencode, key: &str, value: i64)
    requires
        old(dict)@ is Dict,
    ensures
        final(dict)@ == BencodeValue::Dict(
            insert_entry(old(dict)@->Dict_0, key_of(key), BencodeValue::Int(value)),
        ),
        old(dict).wf() ==> final(dict).wf(),
{
    dict.insert(key_bytes(key), Bencode::new_int(value));
}

} // verus!
