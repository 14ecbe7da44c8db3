//! What holds between writing and reading messages: each message, written as
//! bencode and read again, is the message that was written.

use crate::bencode::convert::{entry_of};
use crate::bencode::decode::{parse_whole, BencodeParseError, MAX_DEPTH};
use crate::bencode::encode::encode_value;
use crate::bencode::laws::{lemma_decode_encode, lemma_entries_depth_bound, lemma_items_depth_bound};
use crate::bencode::text::{key_of, text_model};
use crate::bencode::value::{
    insert_entry, lemma_insert_members, lemma_insert_wf, lemma_lookup_after_insert, lookup_value,
    value_depth, value_wf, BencodeValue, Entries,
};
use crate::dht::error::{DhtFault, Side};
use crate::dht::message::announce_peer::{
    announce_peer_args,
    announce_peer_request_of,
    node_id_values,
    port_is_implied,
    port_of,
    ConnectPort,
};
use crate::dht::message::compact_info::values_wf;
use crate::dht::message::envelope::{expected_in, message_of, EnvelopeModel};
use crate::dht::message::find_node::{find_node_args, find_node_values};
use crate::dht::message::get_peers::{
    compact_info_of,
    get_peers_args,
    get_peers_response_of,
    get_peers_values,
    CompactInfoModel,
};
use crate::dht::message::keys::{keys_distinct, lemma_keys_distinct};
use crate::dht::message::request::{request_of, RequestModel};
use crate::dht::message::response::{response_of, ExpectedResponse, ResponseModel};
use crate::dht::message::validate::{all_bytes, required_dict};
use crate::dht::message::{
    request_value, response_value, ANNOUNCE_PEER_TYPE_KEY, FIND_NODE_TYPE_KEY,
    GET_PEERS_TYPE_KEY, IMPLIED_PORT_KEY, INFO_HASH_KEY, MESSAGE_TYPE_KEY, NODES_KEY,
    NODE_ID_KEY, PING_TYPE_KEY, PORT_KEY, REQUEST_ARGS_KEY, REQUEST_TYPE_KEY,
    RESPONSE_TYPE_KEY, TARGET_ID_KEY, TOKEN_KEY, TRANSACTION_ID_KEY, VALUES_KEY,
};
use vstd::prelude::*;

verus! {

/// Whether the dictionary `d` has ascending keys and values that are
/// well-formed and nested at most `bound` deep.
pub open spec fn within(d: Entries, bound: nat) -> bool {
    &&& value_wf(BencodeValue::Dict(d))
    &&& forall|i: int| 0 <= i < d.len() ==> value_depth((#[trigger] d[i]).1) <= bound
}

/// Storing a value that is within a bound in a dictionary that is leaves the
/// dictionary within the bound.
pub proof fn lemma_within_insert(d: Entries, k: Seq<u8>, v: BencodeValue, bound: nat)
    requires
        within(d, bound),
        value_wf(v),
        value_depth(v) <= bound,
    ensures
        within(insert_entry(d, k, v), bound),
{
    lemma_insert_wf(d, k, v);
    lemma_insert_members(d, k, v);
    let r = insert_entry(d, k, v);
    assert forall|i: int| 0 <= i < r.len() implies value_depth((#[trigger] r[i]).1) <= bound by {
        if r[i] != (k, v) {
            let j = choose|j: int| 0 <= j < d.len() && d[j] == r[i];
            assert(value_depth(d[j].1) <= bound);
        }
    }
}

/// A dictionary within a bound is nested one deeper at most.
pub proof fn lemma_within_depth(d: Entries, bound: nat)
    requires
        within(d, bound),
    ensures
        value_wf(BencodeValue::Dict(d)),
        value_depth(BencodeValue::Dict(d)) <= bound + 1,
{
    lemma_entries_depth_bound(d, bound);
}

/// What a message written as bencode and read again is: the value is in the
/// canonical form, its encoding reads as the value, and the value reads as
/// the message `model`.
pub open spec fn reads_back(
    v: BencodeValue,
    table: Seq<(Seq<u8>, ExpectedResponse)>,
    model: EnvelopeModel,
) -> bool {
    &&& value_wf(v)
    &&& parse_whole(encode_value(v), MAX_DEPTH as nat) == Ok::<BencodeValue, BencodeParseError>(v)
    &&& message_of(v, table) == Ok::<EnvelopeModel, DhtFault>(model)
}

/// The entries of the dictionary of a query.
pub proof fn lemma_request_entries(trans_id: Seq<u8>, query: Seq<char>, args: Entries, q: Seq<u8>)
    ensures
        entry_of(request_value(trans_id, query, args), q) == (if q == key_of(REQUEST_ARGS_KEY) {
            Some(BencodeValue::Dict(args))
        } else if q == key_of(REQUEST_TYPE_KEY) {
            Some(text_model(query))
        } else if q == key_of(MESSAGE_TYPE_KEY) {
            Some(text_model(REQUEST_TYPE_KEY@))
        } else if q == key_of(TRANSACTION_ID_KEY) {
            Some(BencodeValue::Bytes(trans_id))
        } else {
            None
        }),
{
    let e0 = Seq::<(Seq<u8>, BencodeValue)>::empty();
    let e1 = insert_entry(e0, key_of(TRANSACTION_ID_KEY), BencodeValue::Bytes(trans_id));
    let e2 = insert_entry(e1, key_of(MESSAGE_TYPE_KEY), text_model(REQUEST_TYPE_KEY@));
    let e3 = insert_entry(e2, key_of(REQUEST_TYPE_KEY), text_model(query));
    lemma_lookup_after_insert(e0, key_of(TRANSACTION_ID_KEY), BencodeValue::Bytes(trans_id), q);
    lemma_lookup_after_insert(e1, key_of(MESSAGE_TYPE_KEY), text_model(REQUEST_TYPE_KEY@), q);
    lemma_lookup_after_insert(e2, key_of(REQUEST_TYPE_KEY), text_model(query), q);
    lemma_lookup_after_insert(e3, key_of(REQUEST_ARGS_KEY), BencodeValue::Dict(args), q);
}

/// The entries of the dictionary of a response.
pub proof fn lemma_response_entries(trans_id: Seq<u8>, values: Entries, q: Seq<u8>)
    ensures
        entry_of(response_value(trans_id, values), q) == (if q == key_of(RESPONSE_TYPE_KEY) {
            Some(BencodeValue::Dict(values))
        } else if q == key_of(MESSAGE_TYPE_KEY) {
            Some(text_model(RESPONSE_TYPE_KEY@))
        } else if q == key_of(TRANSACTION_ID_KEY) {
            Some(BencodeValue::Bytes(trans_id))
        } else {
            None
        }),
{
    let e0 = Seq::<(Seq<u8>, BencodeValue)>::empty();
    let e1 = insert_entry(e0, key_of(TRANSACTION_ID_KEY), BencodeValue::Bytes(trans_id));
    let e2 = insert_entry(e1, key_of(MESSAGE_TYPE_KEY), text_model(RESPONSE_TYPE_KEY@));
    lemma_lookup_after_insert(e0, key_of(TRANSACTION_ID_KEY), BencodeValue::Bytes(trans_id), q);
    lemma_lookup_after_insert(e1, key_of(MESSAGE_TYPE_KEY), text_model(RESPONSE_TYPE_KEY@), q);
    lemma_lookup_after_insert(e2, key_of(RESPONSE_TYPE_KEY), BencodeValue::Dict(values), q);
}

/// The dictionary of a query is in the canonical form and reads back from
/// its encoding, where its arguments are within a bound of nesting.
pub proof fn lemma_request_value(trans_id: Seq<u8>, query: Seq<char>, args: Entries)
    requires
        within(args, 1),
    ensures
        value_wf(request_value(trans_id, query, args)),
        parse_whole(encode_value(request_value(trans_id, query, args)), MAX_DEPTH as nat) == Ok::<
            BencodeValue,
            BencodeParseError,
        >(request_value(trans_id, query, args)),
{
    lemma_within_depth(args, 1);
    let e0 = Seq::<(Seq<u8>, BencodeValue)>::empty();
    let e1 = insert_entry(e0, key_of(TRANSACTION_ID_KEY), BencodeValue::Bytes(trans_id));
    let e2 = insert_entry(e1, key_of(MESSAGE_TYPE_KEY), text_model(REQUEST_TYPE_KEY@));
    let e3 = insert_entry(e2, key_of(REQUEST_TYPE_KEY), text_model(query));
    let e4 = insert_entry(e3, key_of(REQUEST_ARGS_KEY), BencodeValue::Dict(args));
    assert(within(e0, 2));
    lemma_within_insert(e0, key_of(TRANSACTION_ID_KEY), BencodeValue::Bytes(trans_id), 2);
    lemma_within_insert(e1, key_of(MESSAGE_TYPE_KEY), text_model(REQUEST_TYPE_KEY@), 2);
    lemma_within_insert(e2, key_of(REQUEST_TYPE_KEY), text_model(query), 2);
    lemma_within_insert(e3, key_of(REQUEST_ARGS_KEY), BencodeValue::Dict(args), 2);
    lemma_within_depth(e4, 2);
    lemma_decode_encode(request_value(trans_id, query, args), MAX_DEPTH as nat);
}

/// The dictionary of a response is in the canonical form and reads back from
/// its encoding, where its values are within a bound of nesting.
pub proof fn lemma_response_value(trans_id: Seq<u8>, values: Entries)
    requires
        within(values, 1),
    ensures
        value_wf(response_value(trans_id, values)),
        parse_whole(encode_value(response_value(trans_id, values)), MAX_DEPTH as nat) == Ok::<
            BencodeValue,
            BencodeParseError,
        >(response_value(trans_id, values)),
{
    lemma_within_depth(values, 1);
    let e0 = Seq::<(Seq<u8>, BencodeValue)>::empty();
    let e1 = insert_entry(e0, key_of(TRANSACTION_ID_KEY), BencodeValue::Bytes(trans_id));
    let e2 = insert_entry(e1, key_of(MESSAGE_TYPE_KEY), text_model(RESPONSE_TYPE_KEY@));
    let e3 = insert_entry(e2, key_of(RESPONSE_TYPE_KEY), BencodeValue::Dict(values));
    assert(within(e0, 2));
    lemma_within_insert(e0, key_of(TRANSACTION_ID_KEY), BencodeValue::Bytes(trans_id), 2);
    lemma_within_insert(e1, key_of(MESSAGE_TYPE_KEY), text_model(RESPONSE_TYPE_KEY@), 2);
    lemma_within_insert(e2, key_of(RESPONSE_TYPE_KEY), BencodeValue::Dict(values), 2);
    lemma_within_depth(e3, 2);
    lemma_decode_encode(response_value(trans_id, values), MAX_DEPTH as nat);
}

/// The envelope of a query reads as the query that its arguments read as.
pub proof fn lemma_request_envelope(
    trans_id: Seq<u8>,
    query: &str,
    args: Entries,
    table: Seq<(Seq<u8>, ExpectedResponse)>,
)
    ensures
        message_of(request_value(trans_id, query@, args), table) == (match request_of(
            request_value(trans_id, query@, args),
            trans_id,
            key_of(query),
        ) {
            Ok(model) => Ok::<EnvelopeModel, DhtFault>(EnvelopeModel::Request(model)),
            Err(fault) => Err::<EnvelopeModel, DhtFault>(fault),
        }),
        required_dict(
            Side::Request,
            trans_id,
            request_value(trans_id, query@, args),
            key_of(REQUEST_ARGS_KEY),
        ) == Ok::<Entries, DhtFault>(args),
{
    lemma_keys_distinct();
    let v = request_value(trans_id, query@, args);
    lemma_request_entries(trans_id, query@, args, key_of(TRANSACTION_ID_KEY));
    lemma_request_entries(trans_id, query@, args, key_of(MESSAGE_TYPE_KEY));
    lemma_request_entries(trans_id, query@, args, key_of(REQUEST_TYPE_KEY));
    lemma_request_entries(trans_id, query@, args, key_of(REQUEST_ARGS_KEY));
}

/// The envelope of a response reads as the kind of response that its
/// transaction waits for.
pub proof fn lemma_response_envelope(
    trans_id: Seq<u8>,
    values: Entries,
    table: Seq<(Seq<u8>, ExpectedResponse)>,
)
    requires
        !(expected_in(table, trans_id) is GetData),
        !(expected_in(table, trans_id) is PutData),
    ensures
        message_of(response_value(trans_id, values), table) == (match response_of(
            response_value(trans_id, values),
            trans_id,
            expected_in(table, trans_id),
        ) {
            Ok(model) => Ok::<EnvelopeModel, DhtFault>(EnvelopeModel::Response(model)),
            Err(fault) => Err::<EnvelopeModel, DhtFault>(fault),
        }),
        required_dict(
            Side::Response,
            trans_id,
            response_value(trans_id, values),
            key_of(RESPONSE_TYPE_KEY),
        ) == Ok::<Entries, DhtFault>(values),
{
    lemma_keys_distinct();
    lemma_response_entries(trans_id, values, key_of(TRANSACTION_ID_KEY));
    lemma_response_entries(trans_id, values, key_of(MESSAGE_TYPE_KEY));
    lemma_response_entries(trans_id, values, key_of(RESPONSE_TYPE_KEY));
}

/// The one entry of values that hold a node id only.
pub proof fn lemma_node_id_values(node_id: Seq<u8>, q: Seq<u8>)
    ensures
        lookup_value(node_id_values(node_id), q) == (if q == key_of(NODE_ID_KEY) {
            Some(BencodeValue::Bytes(node_id))
        } else {
            None
        }),
        within(node_id_values(node_id), 1),
{
    let e0 = Seq::<(Seq<u8>, BencodeValue)>::empty();
    lemma_lookup_after_insert(e0, key_of(NODE_ID_KEY), BencodeValue::Bytes(node_id), q);
    assert(within(e0, 1));
    lemma_within_insert(e0, key_of(NODE_ID_KEY), BencodeValue::Bytes(node_id), 1);
}

/// A ping query, written and read again, is the query.
pub proof fn lemma_ping_request_round_trip(
    trans_id: Seq<u8>,
    node_id: Seq<u8>,
    table: Seq<(Seq<u8>, ExpectedResponse)>,
)
    requires
        node_id.len() == 20,
    ensures
        reads_back(
            request_value(trans_id, PING_TYPE_KEY@, node_id_values(node_id)),
            table,
            EnvelopeModel::Request(RequestModel::Ping(node_id)),
        ),
{
    let args = node_id_values(node_id);
    lemma_keys_distinct();
    lemma_node_id_values(node_id, key_of(NODE_ID_KEY));
    lemma_request_value(trans_id, PING_TYPE_KEY@, args);
    lemma_request_envelope(trans_id, PING_TYPE_KEY, args, table);
}

/// A response to a ping, written and read again by who waits for it, is the
/// response.
pub proof fn lemma_ping_response_round_trip(
    trans_id: Seq<u8>,
    node_id: Seq<u8>,
    table: Seq<(Seq<u8>, ExpectedResponse)>,
)
    requires
        node_id.len() == 20,
        expected_in(table, trans_id) is Ping,
    ensures
        reads_back(
            response_value(trans_id, node_id_values(node_id)),
            table,
            EnvelopeModel::Response(ResponseModel::Ping(node_id)),
        ),
{
    let values = node_id_values(node_id);
    lemma_keys_distinct();
    lemma_node_id_values(node_id, key_of(NODE_ID_KEY));
    lemma_response_value(trans_id, values);
    lemma_response_envelope(trans_id, values, table);
}

/// A response to an announce, written and read again by who waits for it, is
/// the response.
pub proof fn lemma_announce_peer_response_round_trip(
    trans_id: Seq<u8>,
    node_id: Seq<u8>,
    table: Seq<(Seq<u8>, ExpectedResponse)>,
)
    requires
        node_id.len() == 20,
        expected_in(table, trans_id) is AnnouncePeer,
    ensures
        reads_back(
            response_value(trans_id, node_id_values(node_id)),
            table,
            EnvelopeModel::Response(ResponseModel::AnnouncePeer(node_id)),
        ),
{
    let values = node_id_values(node_id);
    lemma_keys_distinct();
    lemma_node_id_values(node_id, key_of(NODE_ID_KEY));
    lemma_response_value(trans_id, values);
    lemma_response_envelope(trans_id, values, table);
}

/// The two entries of a dictionary that was made by storing two byte
/// strings in the empty one.
pub proof fn lemma_two_entries(k1: Seq<u8>, b1: Seq<u8>, k2: Seq<u8>, b2: Seq<u8>, q: Seq<u8>)
    ensures
        ({
            let d = insert_entry(
                insert_entry(Seq::empty(), k1, BencodeValue::Bytes(b1)),
                k2,
                BencodeValue::Bytes(b2),
            );
            &&& lookup_value(d, q) == (if q == k2 {
                Some(BencodeValue::Bytes(b2))
            } else if q == k1 {
                Some(BencodeValue::Bytes(b1))
            } else {
                None
            })
            &&& within(d, 1)
        }),
{
    let e0 = Seq::<(Seq<u8>, BencodeValue)>::empty();
    let e1 = insert_entry(e0, k1, BencodeValue::Bytes(b1));
    lemma_lookup_after_insert(e0, k1, BencodeValue::Bytes(b1), q);
    lemma_lookup_after_insert(e1, k2, BencodeValue::Bytes(b2), q);
    assert(within(e0, 1));
    lemma_within_insert(e0, k1, BencodeValue::Bytes(b1), 1);
    lemma_within_insert(e1, k2, BencodeValue::Bytes(b2), 1);
}

/// A `find_node` query, written and read again, is the query.
pub proof fn lemma_find_node_request_round_trip(
    trans_id: Seq<u8>,
    node_id: Seq<u8>,
    target_id: Seq<u8>,
    table: Seq<(Seq<u8>, ExpectedResponse)>,
)
    requires
        node_id.len() == 20,
        target_id.len() == 20,
    ensures
        reads_back(
            request_value(trans_id, FIND_NODE_TYPE_KEY@, find_node_args(node_id, target_id)),
            table,
            EnvelopeModel::Request(RequestModel::FindNode(node_id, target_id)),
        ),
{
    let args = find_node_args(node_id, target_id);
    lemma_keys_distinct();
    lemma_two_entries(
        key_of(NODE_ID_KEY),
        node_id,
        key_of(TARGET_ID_KEY),
        target_id,
        key_of(NODE_ID_KEY),
    );
    lemma_two_entries(
        key_of(NODE_ID_KEY),
        node_id,
        key_of(TARGET_ID_KEY),
        target_id,
        key_of(TARGET_ID_KEY),
    );
    lemma_request_value(trans_id, FIND_NODE_TYPE_KEY@, args);
    lemma_request_envelope(trans_id, FIND_NODE_TYPE_KEY, args, table);
}

/// A response to `find_node`, written and read again by who waits for it, is
/// the response.
pub proof fn lemma_find_node_response_round_trip(
    trans_id: Seq<u8>,
    node_id: Seq<u8>,
    nodes: Seq<u8>,
    table: Seq<(Seq<u8>, ExpectedResponse)>,
)
    requires
        node_id.len() == 20,
        nodes.len() % 26 == 0,
        expected_in(table, trans_id) is FindNode,
    ensures
        reads_back(
            response_value(trans_id, find_node_values(node_id, nodes)),
            table,
            EnvelopeModel::Response(ResponseModel::FindNode(node_id, nodes)),
        ),
{
    let values = find_node_values(node_id, nodes);
    lemma_keys_distinct();
    lemma_two_entries(key_of(NODE_ID_KEY), node_id, key_of(NODES_KEY), nodes, key_of(NODE_ID_KEY));
    lemma_two_entries(key_of(NODE_ID_KEY), node_id, key_of(NODES_KEY), nodes, key_of(NODES_KEY));
    lemma_response_value(trans_id, values);
    lemma_response_envelope(trans_id, values, table);
}

/// A `get_peers` query, written and read again, is the query.
pub proof fn lemma_get_peers_request_round_trip(
    trans_id: Seq<u8>,
    node_id: Seq<u8>,
    info_hash: Seq<u8>,
    table: Seq<(Seq<u8>, ExpectedResponse)>,
)
    requires
        node_id.len() == 20,
        info_hash.len() == 20,
    ensures
        reads_back(
            request_value(trans_id, GET_PEERS_TYPE_KEY@, get_peers_args(node_id, info_hash)),
            table,
            EnvelopeModel::Request(RequestModel::GetPeers(node_id, info_hash)),
        ),
{
    let args = get_peers_args(node_id, info_hash);
    lemma_keys_distinct();
    lemma_two_entries(
        key_of(NODE_ID_KEY),
        node_id,
        key_of(INFO_HASH_KEY),
        info_hash,
        key_of(NODE_ID_KEY),
    );
    lemma_two_entries(
        key_of(NODE_ID_KEY),
        node_id,
        key_of(INFO_HASH_KEY),
        info_hash,
        key_of(INFO_HASH_KEY),
    );
    lemma_request_value(trans_id, GET_PEERS_TYPE_KEY@, args);
    lemma_request_envelope(trans_id, GET_PEERS_TYPE_KEY, args, table);
}

/// The entries of the arguments of an `announce_peer` query.
pub proof fn lemma_announce_peer_args(
    node_id: Seq<u8>,
    info_hash: Seq<u8>,
    token: Seq<u8>,
    port: ConnectPort,
    q: Seq<u8>,
)
    ensures
        lookup_value(announce_peer_args(node_id, info_hash, token, port), q) == (if q == key_of(
            TOKEN_KEY,
        ) {
            Some(BencodeValue::Bytes(token))
        } else if q == key_of(PORT_KEY) {
            Some(
                BencodeValue::Int(
                    match port {
                        ConnectPort::Implied => 0i64,
                        ConnectPort::Explicit(n) => n as i64,
                    },
                ),
            )
        } else if q == key_of(INFO_HASH_KEY) {
            Some(BencodeValue::Bytes(info_hash))
        } else if q == key_of(IMPLIED_PORT_KEY) {
            Some(
                BencodeValue::Int(
                    match port {
                        ConnectPort::Implied => 1i64,
                        ConnectPort::Explicit(_) => 0i64,
                    },
                ),
            )
        } else if q == key_of(NODE_ID_KEY) {
            Some(BencodeValue::Bytes(node_id))
        } else {
            None
        }),
        within(announce_peer_args(node_id, info_hash, token, port), 1),
{
    let (displayed_port, implied_value) = match port {
        ConnectPort::Implied => (0i64, 1i64),
        ConnectPort::Explicit(n) => (n as i64, 0i64),
    };
    let e0 = Seq::<(Seq<u8>, BencodeValue)>::empty();
    let e1 = insert_entry(e0, key_of(NODE_ID_KEY), BencodeValue::Bytes(node_id));
    let e2 = insert_entry(e1, key_of(IMPLIED_PORT_KEY), BencodeValue::Int(implied_value));
    let e3 = insert_entry(e2, key_of(INFO_HASH_KEY), BencodeValue::Bytes(info_hash));
    let e4 = insert_entry(e3, key_of(PORT_KEY), BencodeValue::Int(displayed_port));
    lemma_lookup_after_insert(e0, key_of(NODE_ID_KEY), BencodeValue::Bytes(node_id), q);
    lemma_lookup_after_insert(e1, key_of(IMPLIED_PORT_KEY), BencodeValue::Int(implied_value), q);
    lemma_lookup_after_insert(e2, key_of(INFO_HASH_KEY), BencodeValue::Bytes(info_hash), q);
    lemma_lookup_after_insert(e3, key_of(PORT_KEY), BencodeValue::Int(displayed_port), q);
    lemma_lookup_after_insert(e4, key_of(TOKEN_KEY), BencodeValue::Bytes(token), q);
    assert(within(e0, 1));
    lemma_within_insert(e0, key_of(NODE_ID_KEY), BencodeValue::Bytes(node_id), 1);
    lemma_within_insert(e1, key_of(IMPLIED_PORT_KEY), BencodeValue::Int(implied_value), 1);
    lemma_within_insert(e2, key_of(INFO_HASH_KEY), BencodeValue::Bytes(info_hash), 1);
    lemma_within_insert(e3, key_of(PORT_KEY), BencodeValue::Int(displayed_port), 1);
    lemma_within_insert(e4, key_of(TOKEN_KEY), BencodeValue::Bytes(token), 1);
}

/// An `announce_peer` query, written and read again, is the query: with an
/// implied port as with an explicit one.
pub proof fn lemma_announce_peer_request_round_trip(
    trans_id: Seq<u8>,
    node_id: Seq<u8>,
    info_hash: Seq<u8>,
    token: Seq<u8>,
    port: ConnectPort,
    table: Seq<(Seq<u8>, ExpectedResponse)>,
)
    requires
        node_id.len() == 20,
        info_hash.len() == 20,
    ensures
        reads_back(
            request_value(
                trans_id,
                ANNOUNCE_PEER_TYPE_KEY@,
                announce_peer_args(node_id, info_hash, token, port),
            ),
            table,
            EnvelopeModel::Request(RequestModel::AnnouncePeer(node_id, info_hash, token, port)),
        ),
{
    let args = announce_peer_args(node_id, info_hash, token, port);
    lemma_keys_distinct();
    lemma_announce_peer_args(node_id, info_hash, token, port, key_of(NODE_ID_KEY));
    lemma_announce_peer_args(node_id, info_hash, token, port, key_of(INFO_HASH_KEY));
    lemma_announce_peer_args(node_id, info_hash, token, port, key_of(TOKEN_KEY));
    lemma_announce_peer_args(node_id, info_hash, token, port, key_of(PORT_KEY));
    lemma_announce_peer_args(node_id, info_hash, token, port, key_of(IMPLIED_PORT_KEY));
    lemma_request_value(trans_id, ANNOUNCE_PEER_TYPE_KEY@, args);
    lemma_request_envelope(trans_id, ANNOUNCE_PEER_TYPE_KEY, args, table);
    let root = BencodeValue::Dict(args);
    match port {
        ConnectPort::Implied => {
            assert(port_is_implied(root));
        },
        ConnectPort::Explicit(n) => {
            assert(!port_is_implied(root));
            assert(port_of(n as i64) == n);
        },
    }
    assert(announce_peer_request_of(root, trans_id) == Ok::<
        (Seq<u8>, Seq<u8>, Seq<u8>, ConnectPort),
        DhtFault,
    >((node_id, info_hash, token, port)));
}

/// The entries of the values of a response to `get_peers`.
pub proof fn lemma_get_peers_values(
    node_id: Seq<u8>,
    token: Option<Seq<u8>>,
    info: CompactInfoModel,
    q: Seq<u8>,
)
    requires
        keys_distinct(),
        match info {
            CompactInfoModel::Nodes(_) => true,
            CompactInfoModel::Values(v) => values_wf(v),
            CompactInfoModel::Both(_, v) => values_wf(v),
        },
    ensures
        q == key_of(NODE_ID_KEY) ==> lookup_value(get_peers_values(node_id, token, info), q)
            == Some(BencodeValue::Bytes(node_id)),
        q == key_of(TOKEN_KEY) ==> lookup_value(get_peers_values(node_id, token, info), q) == (
        match token {
            Some(t) => Some(BencodeValue::Bytes(t)),
            None => None,
        }),
        q == key_of(NODES_KEY) ==> lookup_value(get_peers_values(node_id, token, info), q) == (
        match info {
            CompactInfoModel::Nodes(n) => Some(BencodeValue::Bytes(n)),
            CompactInfoModel::Values(_) => None,
            CompactInfoModel::Both(n, _) => Some(BencodeValue::Bytes(n)),
        }),
        q == key_of(VALUES_KEY) ==> lookup_value(get_peers_values(node_id, token, info), q) == (
        match info {
            CompactInfoModel::Nodes(_) => None,
            CompactInfoModel::Values(v) => Some(BencodeValue::List(v)),
            CompactInfoModel::Both(_, v) => Some(BencodeValue::List(v)),
        }),
        within(get_peers_values(node_id, token, info), 1),
{
    let e0 = Seq::<(Seq<u8>, BencodeValue)>::empty();
    let with_id = insert_entry(e0, key_of(NODE_ID_KEY), BencodeValue::Bytes(node_id));
    lemma_lookup_after_insert(e0, key_of(NODE_ID_KEY), BencodeValue::Bytes(node_id), q);
    assert(within(e0, 1));
    lemma_within_insert(e0, key_of(NODE_ID_KEY), BencodeValue::Bytes(node_id), 1);
    let with_token = match token {
        Some(t) => insert_entry(with_id, key_of(TOKEN_KEY), BencodeValue::Bytes(t)),
        None => with_id,
    };
    match token {
        Some(t) => {
            lemma_lookup_after_insert(with_id, key_of(TOKEN_KEY), BencodeValue::Bytes(t), q);
            lemma_within_insert(with_id, key_of(TOKEN_KEY), BencodeValue::Bytes(t), 1);
        },
        None => {},
    }
    match info {
        CompactInfoModel::Nodes(n) => {
            lemma_lookup_after_insert(with_token, key_of(NODES_KEY), BencodeValue::Bytes(n), q);
            lemma_within_insert(with_token, key_of(NODES_KEY), BencodeValue::Bytes(n), 1);
        },
        CompactInfoModel::Values(v) => {
            lemma_values_list(v);
            lemma_lookup_after_insert(with_token, key_of(VALUES_KEY), BencodeValue::List(v), q);
            lemma_within_insert(with_token, key_of(VALUES_KEY), BencodeValue::List(v), 1);
        },
        CompactInfoModel::Both(n, v) => {
            lemma_values_list(v);
            let with_nodes = insert_entry(with_token, key_of(NODES_KEY), BencodeValue::Bytes(n));
            lemma_lookup_after_insert(with_token, key_of(NODES_KEY), BencodeValue::Bytes(n), q);
            lemma_within_insert(with_token, key_of(NODES_KEY), BencodeValue::Bytes(n), 1);
            lemma_lookup_after_insert(with_nodes, key_of(VALUES_KEY), BencodeValue::List(v), q);
            lemma_within_insert(with_nodes, key_of(VALUES_KEY), BencodeValue::List(v), 1);
        },
    }
}

/// A list of compact values is well-formed, nested one deep, and made of
/// byte strings.
pub proof fn lemma_values_list(values: Seq<BencodeValue>)
    requires
        values_wf(values),
    ensures
        value_wf(BencodeValue::List(values)),
        value_depth(BencodeValue::List(values)) <= 1,
        all_bytes(values),
{
    assert forall|i: int| 0 <= i < values.len() implies value_wf(#[trigger] values[i])
        && value_depth(values[i]) <= 0 by {
        assert(values[i] is Bytes);
    }
    lemma_items_depth_bound(values, 0);
    assert forall|i: int| 0 <= i < values.len() implies (#[trigger] values[i]) is Bytes by {
        assert(values[i] is Bytes && values[i]->Bytes_0.len() == 6);
    }
}

/// A response to `get_peers`, written and read again by who waits for it, is
/// the response: with or without a token, with nodes, values or both.
pub proof fn lemma_get_peers_response_round_trip(
    trans_id: Seq<u8>,
    node_id: Seq<u8>,
    token: Option<Seq<u8>>,
    info: CompactInfoModel,
    table: Seq<(Seq<u8>, ExpectedResponse)>,
)
    requires
        node_id.len() == 20,
        match info {
            CompactInfoModel::Nodes(n) => n.len() % 26 == 0,
            CompactInfoModel::Values(v) => values_wf(v),
            CompactInfoModel::Both(n, v) => n.len() % 26 == 0 && values_wf(v),
        },
        expected_in(table, trans_id) is GetPeers,
    ensures
        reads_back(
            response_value(trans_id, get_peers_values(node_id, token, info)),
            table,
            EnvelopeModel::Response(ResponseModel::GetPeers(node_id, token, info)),
        ),
{
    let values = get_peers_values(node_id, token, info);
    lemma_keys_distinct();
    lemma_get_peers_values(node_id, token, info, key_of(NODE_ID_KEY));
    lemma_get_peers_values(node_id, token, info, key_of(TOKEN_KEY));
    lemma_get_peers_values(node_id, token, info, key_of(NODES_KEY));
    lemma_get_peers_values(node_id, token, info, key_of(VALUES_KEY));
    match info {
        CompactInfoModel::Nodes(_) => {},
        CompactInfoModel::Values(v) => {
            lemma_values_list(v);
        },
        CompactInfoModel::Both(_, v) => {
            lemma_values_list(v);
        },
    }
    lemma_response_value(trans_id, values);
    lemma_response_envelope(trans_id, values, table);
    let root = BencodeValue::Dict(values);
    assert(compact_info_of(root, trans_id) == Ok::<CompactInfoModel, DhtFault>(info));
    assert(get_peers_response_of(root, trans_id) == Ok::<
        (Seq<u8>, Option<Seq<u8>>, CompactInfoModel),
        DhtFault,
    >((node_id, token, info)));
}

} // verus!
