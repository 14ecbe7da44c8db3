//! The bytes of the keys of messages, and that no two keys are the same.

use crate::bencode::text::key_of;
use crate::dht::message::{
    ANNOUNCE_PEER_TYPE_KEY, ERROR_TYPE_KEY, FIND_NODE_TYPE_KEY, GET_PEERS_TYPE_KEY,
    IMPLIED_PORT_KEY, INFO_HASH_KEY, MESSAGE_TYPE_KEY, NODES_KEY, NODE_ID_KEY, PING_TYPE_KEY,
    PORT_KEY, REQUEST_ARGS_KEY, REQUEST_TYPE_KEY, RESPONSE_TYPE_KEY, TARGET_ID_KEY, TOKEN_KEY,
    TRANSACTION_ID_KEY, VALUES_KEY,
};
use vstd::prelude::*;
use vstd::string::*;

verus! {

/// A text of ASCII characters is stored as those characters, one byte each.
pub proof fn lemma_ascii_key(key: &str, bytes: Seq<u8>)
    requires
        key@.len() == bytes.len(),
        forall|i: int|
            0 <= i < bytes.len() ==> '\0' <= #[trigger] key@[i] <= '\u{7f}' && key@[i] as u8
                == bytes[i],
    ensures
        key_of(key) == bytes,
{
    assert(is_ascii(key));
    is_ascii_spec_bytes(key);
    assert(key.spec_bytes() =~= bytes);
}

/// The key `t`.
pub proof fn lemma_transaction_id_key()
    ensures
        key_of(TRANSACTION_ID_KEY) == seq![0x74u8],
        TRANSACTION_ID_KEY@.len() == 1,
{
    reveal_strlit("t");
    let bytes = seq![0x74u8];
    assert forall|i: int| 0 <= i < bytes.len() implies '\0' <= #[trigger] TRANSACTION_ID_KEY@[i] <= '\u{7f}'
        && TRANSACTION_ID_KEY@[i] as u8 == bytes[i] by {
        assert(TRANSACTION_ID_KEY@[0] == 't');
    }
    lemma_ascii_key(TRANSACTION_ID_KEY, bytes);
}

/// The key `y`.
pub proof fn lemma_message_type_key()
    ensures
        key_of(MESSAGE_TYPE_KEY) == seq![0x79u8],
        MESSAGE_TYPE_KEY@.len() == 1,
{
    reveal_strlit("y");
    let bytes = seq![0x79u8];
    assert forall|i: int| 0 <= i < bytes.len() implies '\0' <= #[trigger] MESSAGE_TYPE_KEY@[i] <= '\u{7f}'
        && MESSAGE_TYPE_KEY@[i] as u8 == bytes[i] by {
        assert(MESSAGE_TYPE_KEY@[0] == 'y');
    }
    lemma_ascii_key(MESSAGE_TYPE_KEY, bytes);
}

/// The key `q`.
pub proof fn lemma_request_type_key()
    ensures
        key_of(REQUEST_TYPE_KEY) == seq![0x71u8],
        REQUEST_TYPE_KEY@.len() == 1,
{
    reveal_strlit("q");
    let bytes = seq![0x71u8];
    assert forall|i: int| 0 <= i < bytes.len() implies '\0' <= #[trigger] REQUEST_TYPE_KEY@[i] <= '\u{7f}'
        && REQUEST_TYPE_KEY@[i] as u8 == bytes[i] by {
        assert(REQUEST_TYPE_KEY@[0] == 'q');
    }
    lemma_ascii_key(REQUEST_TYPE_KEY, bytes);
}

/// The key `r`.
pub proof fn lemma_response_type_key()
    ensures
        key_of(RESPONSE_TYPE_KEY) == seq![0x72u8],
        RESPONSE_TYPE_KEY@.len() == 1,
{
    reveal_strlit("r");
    let bytes = seq![0x72u8];
    assert forall|i: int| 0 <= i < bytes.len() implies '\0' <= #[trigger] RESPONSE_TYPE_KEY@[i] <= '\u{7f}'
        && RESPONSE_TYPE_KEY@[i] as u8 == bytes[i] by {
        assert(RESPONSE_TYPE_KEY@[0] == 'r');
    }
    lemma_ascii_key(RESPONSE_TYPE_KEY, bytes);
}

/// The key `e`.
pub proof fn lemma_error_type_key()
    ensures
        key_of(ERROR_TYPE_KEY) == seq![0x65u8],
        ERROR_TYPE_KEY@.len() == 1,
{
    reveal_strlit("e");
    let bytes = seq![0x65u8];
    assert forall|i: int| 0 <= i < bytes.len() implies '\0' <= #[trigger] ERROR_TYPE_KEY@[i] <= '\u{7f}'
        && ERROR_TYPE_KEY@[i] as u8 == bytes[i] by {
        assert(ERROR_TYPE_KEY@[0] == 'e');
    }
    lemma_ascii_key(ERROR_TYPE_KEY, bytes);
}

/// The key `a`.
pub proof fn lemma_request_args_key()
    ensures
        key_of(REQUEST_ARGS_KEY) == seq![0x61u8],
        REQUEST_ARGS_KEY@.len() == 1,
{
    reveal_strlit("a");
    let bytes = seq![0x61u8];
    assert forall|i: int| 0 <= i < bytes.len() implies '\0' <= #[trigger] REQUEST_ARGS_KEY@[i] <= '\u{7f}'
        && REQUEST_ARGS_KEY@[i] as u8 == bytes[i] by {
        assert(REQUEST_ARGS_KEY@[0] == 'a');
    }
    lemma_ascii_key(REQUEST_ARGS_KEY, bytes);
}

/// The key `id`.
pub proof fn lemma_node_id_key()
    ensures
        key_of(NODE_ID_KEY) == seq![0x69u8, 0x64u8],
        NODE_ID_KEY@.len() == 2,
{
    reveal_strlit("id");
    let bytes = seq![0x69u8, 0x64u8];
    assert forall|i: int| 0 <= i < bytes.len() implies '\0' <= #[trigger] NODE_ID_KEY@[i] <= '\u{7f}'
        && NODE_ID_KEY@[i] as u8 == bytes[i] by {
        assert(NODE_ID_KEY@[0] == 'i');
        assert(NODE_ID_KEY@[1] == 'd');
    }
    lemma_ascii_key(NODE_ID_KEY, bytes);
}

/// The key `nodes`.
pub proof fn lemma_nodes_key()
    ensures
        key_of(NODES_KEY) == seq![0x6eu8, 0x6fu8, 0x64u8, 0x65u8, 0x73u8],
        NODES_KEY@.len() == 5,
{
    reveal_strlit("nodes");
    let bytes = seq![0x6eu8, 0x6fu8, 0x64u8, 0x65u8, 0x73u8];
    assert forall|i: int| 0 <= i < bytes.len() implies '\0' <= #[trigger] NODES_KEY@[i] <= '\u{7f}'
        && NODES_KEY@[i] as u8 == bytes[i] by {
        assert(NODES_KEY@[0] == 'n');
        assert(NODES_KEY@[1] == 'o');
        assert(NODES_KEY@[2] == 'd');
        assert(NODES_KEY@[3] == 'e');
        assert(NODES_KEY@[4] == 's');
    }
    lemma_ascii_key(NODES_KEY, bytes);
}

/// The key `values`.
pub proof fn lemma_values_key()
    ensures
        key_of(VALUES_KEY) == seq![0x76u8, 0x61u8, 0x6cu8, 0x75u8, 0x65u8, 0x73u8],
        VALUES_KEY@.len() == 6,
{
    reveal_strlit("values");
    let bytes = seq![0x76u8, 0x61u8, 0x6cu8, 0x75u8, 0x65u8, 0x73u8];
    assert forall|i: int| 0 <= i < bytes.len() implies '\0' <= #[trigger] VALUES_KEY@[i] <= '\u{7f}'
        && VALUES_KEY@[i] as u8 == bytes[i] by {
        assert(VALUES_KEY@[0] == 'v');
        assert(VALUES_KEY@[1] == 'a');
        assert(VALUES_KEY@[2] == 'l');
        assert(VALUES_KEY@[3] == 'u');
        assert(VALUES_KEY@[4] == 'e');
        assert(VALUES_KEY@[5] == 's');
    }
    lemma_ascii_key(VALUES_KEY, bytes);
}

/// The key `target`.
pub proof fn lemma_target_id_key()
    ensures
        key_of(TARGET_ID_KEY) == seq![0x74u8, 0x61u8, 0x72u8, 0x67u8, 0x65u8, 0x74u8],
        TARGET_ID_KEY@.len() == 6,
{
    reveal_strlit("target");
    let bytes = seq![0x74u8, 0x61u8, 0x72u8, 0x67u8, 0x65u8, 0x74u8];
    assert forall|i: int| 0 <= i < bytes.len() implies '\0' <= #[trigger] TARGET_ID_KEY@[i] <= '\u{7f}'
        && TARGET_ID_KEY@[i] as u8 == bytes[i] by {
        assert(TARGET_ID_KEY@[0] == 't');
        assert(TARGET_ID_KEY@[1] == 'a');
        assert(TARGET_ID_KEY@[2] == 'r');
        assert(TARGET_ID_KEY@[3] == 'g');
        assert(TARGET_ID_KEY@[4] == 'e');
        assert(TARGET_ID_KEY@[5] == 't');
    }
    lemma_ascii_key(TARGET_ID_KEY, bytes);
}

/// The key `info_hash`.
pub proof fn lemma_info_hash_key()
    ensures
        key_of(INFO_HASH_KEY) == seq![0x69u8, 0x6eu8, 0x66u8, 0x6fu8, 0x5fu8, 0x68u8, 0x61u8, 0x73u8, 0x68u8],
        INFO_HASH_KEY@.len() == 9,
{
    reveal_strlit("info_hash");
    let bytes = seq![0x69u8, 0x6eu8, 0x66u8, 0x6fu8, 0x5fu8, 0x68u8, 0x61u8, 0x73u8, 0x68u8];
    assert forall|i: int| 0 <= i < bytes.len() implies '\0' <= #[trigger] INFO_HASH_KEY@[i] <= '\u{7f}'
        && INFO_HASH_KEY@[i] as u8 == bytes[i] by {
        assert(INFO_HASH_KEY@[0] == 'i');
        assert(INFO_HASH_KEY@[1] == 'n');
        assert(INFO_HASH_KEY@[2] == 'f');
        assert(INFO_HASH_KEY@[3] == 'o');
        assert(INFO_HASH_KEY@[4] == '_');
        assert(INFO_HASH_KEY@[5] == 'h');
        assert(INFO_HASH_KEY@[6] == 'a');
        assert(INFO_HASH_KEY@[7] == 's');
        assert(INFO_HASH_KEY@[8] == 'h');
    }
    lemma_ascii_key(INFO_HASH_KEY, bytes);
}

/// The key `token`.
pub proof fn lemma_token_key()
    ensures
        key_of(TOKEN_KEY) == seq![0x74u8, 0x6fu8, 0x6bu8, 0x65u8, 0x6eu8],
        TOKEN_KEY@.len() == 5,
{
    reveal_strlit("token");
    let bytes = seq![0x74u8, 0x6fu8, 0x6bu8, 0x65u8, 0x6eu8];
    assert forall|i: int| 0 <= i < bytes.len() implies '\0' <= #[trigger] TOKEN_KEY@[i] <= '\u{7f}'
        && TOKEN_KEY@[i] as u8 == bytes[i] by {
        assert(TOKEN_KEY@[0] == 't');
        assert(TOKEN_KEY@[1] == 'o');
        assert(TOKEN_KEY@[2] == 'k');
        assert(TOKEN_KEY@[3] == 'e');
        assert(TOKEN_KEY@[4] == 'n');
    }
    lemma_ascii_key(TOKEN_KEY, bytes);
}

/// The key `port`.
pub proof fn lemma_port_key()
    ensures
        key_of(PORT_KEY) == seq![0x70u8, 0x6fu8, 0x72u8, 0x74u8],
        PORT_KEY@.len() == 4,
{
    reveal_strlit("port");
    let bytes = seq![0x70u8, 0x6fu8, 0x72u8, 0x74u8];
    assert forall|i: int| 0 <= i < bytes.len() implies '\0' <= #[trigger] PORT_KEY@[i] <= '\u{7f}'
        && PORT_KEY@[i] as u8 == bytes[i] by {
        assert(PORT_KEY@[0] == 'p');
        assert(PORT_KEY@[1] == 'o');
        assert(PORT_KEY@[2] == 'r');
        assert(PORT_KEY@[3] == 't');
    }
    lemma_ascii_key(PORT_KEY, bytes);
}

/// The key `implied_port`.
pub proof fn lemma_implied_port_key()
    ensures
        key_of(IMPLIED_PORT_KEY) == seq![0x69u8, 0x6du8, 0x70u8, 0x6cu8, 0x69u8, 0x65u8, 0x64u8, 0x5fu8, 0x70u8, 0x6fu8, 0x72u8, 0x74u8],
        IMPLIED_PORT_KEY@.len() == 12,
{
    reveal_strlit("implied_port");
    let bytes = seq![0x69u8, 0x6du8, 0x70u8, 0x6cu8, 0x69u8, 0x65u8, 0x64u8, 0x5fu8, 0x70u8, 0x6fu8, 0x72u8, 0x74u8];
    assert forall|i: int| 0 <= i < bytes.len() implies '\0' <= #[trigger] IMPLIED_PORT_KEY@[i] <= '\u{7f}'
        && IMPLIED_PORT_KEY@[i] as u8 == bytes[i] by {
        assert(IMPLIED_PORT_KEY@[0] == 'i');
        assert(IMPLIED_PORT_KEY@[1] == 'm');
        assert(IMPLIED_PORT_KEY@[2] == 'p');
        assert(IMPLIED_PORT_KEY@[3] == 'l');
        assert(IMPLIED_PORT_KEY@[4] == 'i');
        assert(IMPLIED_PORT_KEY@[5] == 'e');
        assert(IMPLIED_PORT_KEY@[6] == 'd');
        assert(IMPLIED_PORT_KEY@[7] == '_');
        assert(IMPLIED_PORT_KEY@[8] == 'p');
        assert(IMPLIED_PORT_KEY@[9] == 'o');
        assert(IMPLIED_PORT_KEY@[10] == 'r');
        assert(IMPLIED_PORT_KEY@[11] == 't');
    }
    lemma_ascii_key(IMPLIED_PORT_KEY, bytes);
}

/// The key `ping`.
pub proof fn lemma_ping_type_key()
    ensures
        key_of(PING_TYPE_KEY) == seq![0x70u8, 0x69u8, 0x6eu8, 0x67u8],
        PING_TYPE_KEY@.len() == 4,
{
    reveal_strlit("ping");
    let bytes = seq![0x70u8, 0x69u8, 0x6eu8, 0x67u8];
    assert forall|i: int| 0 <= i < bytes.len() implies '\0' <= #[trigger] PING_TYPE_KEY@[i] <= '\u{7f}'
        && PING_TYPE_KEY@[i] as u8 == bytes[i] by {
        assert(PING_TYPE_KEY@[0] == 'p');
        assert(PING_TYPE_KEY@[1] == 'i');
        assert(PING_TYPE_KEY@[2] == 'n');
        assert(PING_TYPE_KEY@[3] == 'g');
    }
    lemma_ascii_key(PING_TYPE_KEY, bytes);
}

/// The key `find_node`.
pub proof fn lemma_find_node_type_key()
    ensures
        key_of(FIND_NODE_TYPE_KEY) == seq![0x66u8, 0x69u8, 0x6eu8, 0x64u8, 0x5fu8, 0x6eu8, 0x6fu8, 0x64u8, 0x65u8],
        FIND_NODE_TYPE_KEY@.len() == 9,
{
    reveal_strlit("find_node");
    let bytes = seq![0x66u8, 0x69u8, 0x6eu8, 0x64u8, 0x5fu8, 0x6eu8, 0x6fu8, 0x64u8, 0x65u8];
    assert forall|i: int| 0 <= i < bytes.len() implies '\0' <= #[trigger] FIND_NODE_TYPE_KEY@[i] <= '\u{7f}'
        && FIND_NODE_TYPE_KEY@[i] as u8 == bytes[i] by {
        assert(FIND_NODE_TYPE_KEY@[0] == 'f');
        assert(FIND_NODE_TYPE_KEY@[1] == 'i');
        assert(FIND_NODE_TYPE_KEY@[2] == 'n');
        assert(FIND_NODE_TYPE_KEY@[3] == 'd');
        assert(FIND_NODE_TYPE_KEY@[4] == '_');
        assert(FIND_NODE_TYPE_KEY@[5] == 'n');
        assert(FIND_NODE_TYPE_KEY@[6] == 'o');
        assert(FIND_NODE_TYPE_KEY@[7] == 'd');
        assert(FIND_NODE_TYPE_KEY@[8] == 'e');
    }
    lemma_ascii_key(FIND_NODE_TYPE_KEY, bytes);
}

/// The key `get_peers`.
pub proof fn lemma_get_peers_type_key()
    ensures
        key_of(GET_PEERS_TYPE_KEY) == seq![0x67u8, 0x65u8, 0x74u8, 0x5fu8, 0x70u8, 0x65u8, 0x65u8, 0x72u8, 0x73u8],
        GET_PEERS_TYPE_KEY@.len() == 9,
{
    reveal_strlit("get_peers");
    let bytes = seq![0x67u8, 0x65u8, 0x74u8, 0x5fu8, 0x70u8, 0x65u8, 0x65u8, 0x72u8, 0x73u8];
    assert forall|i: int| 0 <= i < bytes.len() implies '\0' <= #[trigger] GET_PEERS_TYPE_KEY@[i] <= '\u{7f}'
        && GET_PEERS_TYPE_KEY@[i] as u8 == bytes[i] by {
        assert(GET_PEERS_TYPE_KEY@[0] == 'g');
        assert(GET_PEERS_TYPE_KEY@[1] == 'e');
        assert(GET_PEERS_TYPE_KEY@[2] == 't');
        assert(GET_PEERS_TYPE_KEY@[3] == '_');
        assert(GET_PEERS_TYPE_KEY@[4] == 'p');
        assert(GET_PEERS_TYPE_KEY@[5] == 'e');
        assert(GET_PEERS_TYPE_KEY@[6] == 'e');
        assert(GET_PEERS_TYPE_KEY@[7] == 'r');
        assert(GET_PEERS_TYPE_KEY@[8] == 's');
    }
    lemma_ascii_key(GET_PEERS_TYPE_KEY, bytes);
}

/// The key `announce_peer`.
pub proof fn lemma_announce_peer_type_key()
    ensures
        key_of(ANNOUNCE_PEER_TYPE_KEY) == seq![0x61u8, 0x6eu8, 0x6eu8, 0x6fu8, 0x75u8, 0x6eu8, 0x63u8, 0x65u8, 0x5fu8, 0x70u8, 0x65u8, 0x65u8, 0x72u8],
        ANNOUNCE_PEER_TYPE_KEY@.len() == 13,
{
    reveal_strlit("announce_peer");
    let bytes = seq![0x61u8, 0x6eu8, 0x6eu8, 0x6fu8, 0x75u8, 0x6eu8, 0x63u8, 0x65u8, 0x5fu8, 0x70u8, 0x65u8, 0x65u8, 0x72u8];
    assert forall|i: int| 0 <= i < bytes.len() implies '\0' <= #[trigger] ANNOUNCE_PEER_TYPE_KEY@[i] <= '\u{7f}'
        && ANNOUNCE_PEER_TYPE_KEY@[i] as u8 == bytes[i] by {
        assert(ANNOUNCE_PEER_TYPE_KEY@[0] == 'a');
        assert(ANNOUNCE_PEER_TYPE_KEY@[1] == 'n');
        assert(ANNOUNCE_PEER_TYPE_KEY@[2] == 'n');
        assert(ANNOUNCE_PEER_TYPE_KEY@[3] == 'o');
        assert(ANNOUNCE_PEER_TYPE_KEY@[4] == 'u');
        assert(ANNOUNCE_PEER_TYPE_KEY@[5] == 'n');
        assert(ANNOUNCE_PEER_TYPE_KEY@[6] == 'c');
        assert(ANNOUNCE_PEER_TYPE_KEY@[7] == 'e');
        assert(ANNOUNCE_PEER_TYPE_KEY@[8] == '_');
        assert(ANNOUNCE_PEER_TYPE_KEY@[9] == 'p');
        assert(ANNOUNCE_PEER_TYPE_KEY@[10] == 'e');
        assert(ANNOUNCE_PEER_TYPE_KEY@[11] == 'e');
        assert(ANNOUNCE_PEER_TYPE_KEY@[12] == 'r');
    }
    lemma_ascii_key(ANNOUNCE_PEER_TYPE_KEY, bytes);
}

/// The bytes of every key of a message.
pub proof fn lemma_keys()
    ensures
        key_of(TRANSACTION_ID_KEY) == seq![0x74u8],
        key_of(MESSAGE_TYPE_KEY) == seq![0x79u8],
        key_of(REQUEST_TYPE_KEY) == seq![0x71u8],
        key_of(RESPONSE_TYPE_KEY) == seq![0x72u8],
        key_of(ERROR_TYPE_KEY) == seq![0x65u8],
        key_of(REQUEST_ARGS_KEY) == seq![0x61u8],
        key_of(NODE_ID_KEY) == seq![0x69u8, 0x64u8],
        key_of(NODES_KEY) == seq![0x6eu8, 0x6fu8, 0x64u8, 0x65u8, 0x73u8],
        key_of(VALUES_KEY) == seq![0x76u8, 0x61u8, 0x6cu8, 0x75u8, 0x65u8, 0x73u8],
        key_of(TARGET_ID_KEY) == seq![0x74u8, 0x61u8, 0x72u8, 0x67u8, 0x65u8, 0x74u8],
        key_of(INFO_HASH_KEY) == seq![0x69u8, 0x6eu8, 0x66u8, 0x6fu8, 0x5fu8, 0x68u8, 0x61u8, 0x73u8, 0x68u8],
        key_of(TOKEN_KEY) == seq![0x74u8, 0x6fu8, 0x6bu8, 0x65u8, 0x6eu8],
        key_of(PORT_KEY) == seq![0x70u8, 0x6fu8, 0x72u8, 0x74u8],
        key_of(IMPLIED_PORT_KEY) == seq![0x69u8, 0x6du8, 0x70u8, 0x6cu8, 0x69u8, 0x65u8, 0x64u8, 0x5fu8, 0x70u8, 0x6fu8, 0x72u8, 0x74u8],
        key_of(PING_TYPE_KEY) == seq![0x70u8, 0x69u8, 0x6eu8, 0x67u8],
        key_of(FIND_NODE_TYPE_KEY) == seq![0x66u8, 0x69u8, 0x6eu8, 0x64u8, 0x5fu8, 0x6eu8, 0x6fu8, 0x64u8, 0x65u8],
        key_of(GET_PEERS_TYPE_KEY) == seq![0x67u8, 0x65u8, 0x74u8, 0x5fu8, 0x70u8, 0x65u8, 0x65u8, 0x72u8, 0x73u8],
        key_of(ANNOUNCE_PEER_TYPE_KEY) == seq![0x61u8, 0x6eu8, 0x6eu8, 0x6fu8, 0x75u8, 0x6eu8, 0x63u8, 0x65u8, 0x5fu8, 0x70u8, 0x65u8, 0x65u8, 0x72u8],
{
    lemma_transaction_id_key();
    lemma_message_type_key();
    lemma_request_type_key();
    lemma_response_type_key();
    lemma_error_type_key();
    lemma_request_args_key();
    lemma_node_id_key();
    lemma_nodes_key();
    lemma_values_key();
    lemma_target_id_key();
    lemma_info_hash_key();
    lemma_token_key();
    lemma_port_key();
    lemma_implied_port_key();
    lemma_ping_type_key();
    lemma_find_node_type_key();
    lemma_get_peers_type_key();
    lemma_announce_peer_type_key();
}

/// Whether the keys of messages differ from one another.
pub open spec fn keys_distinct() -> bool {
    &&& key_of(TRANSACTION_ID_KEY) != key_of(MESSAGE_TYPE_KEY)
    &&& key_of(TRANSACTION_ID_KEY) != key_of(REQUEST_TYPE_KEY)
    &&& key_of(TRANSACTION_ID_KEY) != key_of(RESPONSE_TYPE_KEY)
    &&& key_of(TRANSACTION_ID_KEY) != key_of(ERROR_TYPE_KEY)
    &&& key_of(TRANSACTION_ID_KEY) != key_of(REQUEST_ARGS_KEY)
    &&& key_of(TRANSACTION_ID_KEY) != key_of(NODE_ID_KEY)
    &&& key_of(TRANSACTION_ID_KEY) != key_of(NODES_KEY)
    &&& key_of(TRANSACTION_ID_KEY) != key_of(VALUES_KEY)
    &&& key_of(TRANSACTION_ID_KEY) != key_of(TARGET_ID_KEY)
    &&& key_of(TRANSACTION_ID_KEY) != key_of(INFO_HASH_KEY)
    &&& key_of(TRANSACTION_ID_KEY) != key_of(TOKEN_KEY)
    &&& key_of(TRANSACTION_ID_KEY) != key_of(PORT_KEY)
    &&& key_of(TRANSACTION_ID_KEY) != key_of(IMPLIED_PORT_KEY)
    &&& key_of(TRANSACTION_ID_KEY) != key_of(PING_TYPE_KEY)
    &&& key_of(TRANSACTION_ID_KEY) != key_of(FIND_NODE_TYPE_KEY)
    &&& key_of(TRANSACTION_ID_KEY) != key_of(GET_PEERS_TYPE_KEY)
    &&& key_of(TRANSACTION_ID_KEY) != key_of(ANNOUNCE_PEER_TYPE_KEY)
    &&& key_of(MESSAGE_TYPE_KEY) != key_of(REQUEST_TYPE_KEY)
    &&& key_of(MESSAGE_TYPE_KEY) != key_of(RESPONSE_TYPE_KEY)
    &&& key_of(MESSAGE_TYPE_KEY) != key_of(ERROR_TYPE_KEY)
    &&& key_of(MESSAGE_TYPE_KEY) != key_of(REQUEST_ARGS_KEY)
    &&& key_of(MESSAGE_TYPE_KEY) != key_of(NODE_ID_KEY)
    &&& key_of(MESSAGE_TYPE_KEY) != key_of(NODES_KEY)
    &&& key_of(MESSAGE_TYPE_KEY) != key_of(VALUES_KEY)
    &&& key_of(MESSAGE_TYPE_KEY) != key_of(TARGET_ID_KEY)
    &&& key_of(MESSAGE_TYPE_KEY) != key_of(INFO_HASH_KEY)
    &&& key_of(MESSAGE_TYPE_KEY) != key_of(TOKEN_KEY)
    &&& key_of(MESSAGE_TYPE_KEY) != key_of(PORT_KEY)
    &&& key_of(MESSAGE_TYPE_KEY) != key_of(IMPLIED_PORT_KEY)
    &&& key_of(MESSAGE_TYPE_KEY) != key_of(PING_TYPE_KEY)
    &&& key_of(MESSAGE_TYPE_KEY) != key_of(FIND_NODE_TYPE_KEY)
    &&& key_of(MESSAGE_TYPE_KEY) != key_of(GET_PEERS_TYPE_KEY)
    &&& key_of(MESSAGE_TYPE_KEY) != key_of(ANNOUNCE_PEER_TYPE_KEY)
    &&& key_of(REQUEST_TYPE_KEY) != key_of(RESPONSE_TYPE_KEY)
    &&& key_of(REQUEST_TYPE_KEY) != key_of(ERROR_TYPE_KEY)
    &&& key_of(REQUEST_TYPE_KEY) != key_of(REQUEST_ARGS_KEY)
    &&& key_of(REQUEST_TYPE_KEY) != key_of(NODE_ID_KEY)
    &&& key_of(REQUEST_TYPE_KEY) != key_of(NODES_KEY)
    &&& key_of(REQUEST_TYPE_KEY) != key_of(VALUES_KEY)
    &&& key_of(REQUEST_TYPE_KEY) != key_of(TARGET_ID_KEY)
    &&& key_of(REQUEST_TYPE_KEY) != key_of(INFO_HASH_KEY)
    &&& key_of(REQUEST_TYPE_KEY) != key_of(TOKEN_KEY)
    &&& key_of(REQUEST_TYPE_KEY) != key_of(PORT_KEY)
    &&& key_of(REQUEST_TYPE_KEY) != key_of(IMPLIED_PORT_KEY)
    &&& key_of(REQUEST_TYPE_KEY) != key_of(PING_TYPE_KEY)
    &&& key_of(REQUEST_TYPE_KEY) != key_of(FIND_NODE_TYPE_KEY)
    &&& key_of(REQUEST_TYPE_KEY) != key_of(GET_PEERS_TYPE_KEY)
    &&& key_of(REQUEST_TYPE_KEY) != key_of(ANNOUNCE_PEER_TYPE_KEY)
    &&& key_of(RESPONSE_TYPE_KEY) != key_of(ERROR_TYPE_KEY)
    &&& key_of(RESPONSE_TYPE_KEY) != key_of(REQUEST_ARGS_KEY)
    &&& key_of(RESPONSE_TYPE_KEY) != key_of(NODE_ID_KEY)
    &&& key_of(RESPONSE_TYPE_KEY) != key_of(NODES_KEY)
    &&& key_of(RESPONSE_TYPE_KEY) != key_of(VALUES_KEY)
    &&& key_of(RESPONSE_TYPE_KEY) != key_of(TARGET_ID_KEY)
    &&& key_of(RESPONSE_TYPE_KEY) != key_of(INFO_HASH_KEY)
    &&& key_of(RESPONSE_TYPE_KEY) != key_of(TOKEN_KEY)
    &&& key_of(RESPONSE_TYPE_KEY) != key_of(PORT_KEY)
    &&& key_of(RESPONSE_TYPE_KEY) != key_of(IMPLIED_PORT_KEY)
    &&& key_of(RESPONSE_TYPE_KEY) != key_of(PING_TYPE_KEY)
    &&& key_of(RESPONSE_TYPE_KEY) != key_of(FIND_NODE_TYPE_KEY)
    &&& key_of(RESPONSE_TYPE_KEY) != key_of(GET_PEERS_TYPE_KEY)
    &&& key_of(RESPONSE_TYPE_KEY) != key_of(ANNOUNCE_PEER_TYPE_KEY)
    &&& key_of(ERROR_TYPE_KEY) != key_of(REQUEST_ARGS_KEY)
    &&& key_of(ERROR_TYPE_KEY) != key_of(NODE_ID_KEY)
    &&& key_of(ERROR_TYPE_KEY) != key_of(NODES_KEY)
    &&& key_of(ERROR_TYPE_KEY) != key_of(VALUES_KEY)
    &&& key_of(ERROR_TYPE_KEY) != key_of(TARGET_ID_KEY)
    &&& key_of(ERROR_TYPE_KEY) != key_of(INFO_HASH_KEY)
    &&& key_of(ERROR_TYPE_KEY) != key_of(TOKEN_KEY)
    &&& key_of(ERROR_TYPE_KEY) != key_of(PORT_KEY)
    &&& key_of(ERROR_TYPE_KEY) != key_of(IMPLIED_PORT_KEY)
    &&& key_of(ERROR_TYPE_KEY) != key_of(PING_TYPE_KEY)
    &&& key_of(ERROR_TYPE_KEY) != key_of(FIND_NODE_TYPE_KEY)
    &&& key_of(ERROR_TYPE_KEY) != key_of(GET_PEERS_TYPE_KEY)
    &&& key_of(ERROR_TYPE_KEY) != key_of(ANNOUNCE_PEER_TYPE_KEY)
    &&& key_of(REQUEST_ARGS_KEY) != key_of(NODE_ID_KEY)
    &&& key_of(REQUEST_ARGS_KEY) != key_of(NODES_KEY)
    &&& key_of(REQUEST_ARGS_KEY) != key_of(VALUES_KEY)
    &&& key_of(REQUEST_ARGS_KEY) != key_of(TARGET_ID_KEY)
    &&& key_of(REQUEST_ARGS_KEY) != key_of(INFO_HASH_KEY)
    &&& key_of(REQUEST_ARGS_KEY) != key_of(TOKEN_KEY)
    &&& key_of(REQUEST_ARGS_KEY) != key_of(PORT_KEY)
    &&& key_of(REQUEST_ARGS_KEY) != key_of(IMPLIED_PORT_KEY)
    &&& key_of(REQUEST_ARGS_KEY) != key_of(PING_TYPE_KEY)
    &&& key_of(REQUEST_ARGS_KEY) != key_of(FIND_NODE_TYPE_KEY)
    &&& key_of(REQUEST_ARGS_KEY) != key_of(GET_PEERS_TYPE_KEY)
    &&& key_of(REQUEST_ARGS_KEY) != key_of(ANNOUNCE_PEER_TYPE_KEY)
    &&& key_of(NODE_ID_KEY) != key_of(NODES_KEY)
    &&& key_of(NODE_ID_KEY) != key_of(VALUES_KEY)
    &&& key_of(NODE_ID_KEY) != key_of(TARGET_ID_KEY)
    &&& key_of(NODE_ID_KEY) != key_of(INFO_HASH_KEY)
    &&& key_of(NODE_ID_KEY) != key_of(TOKEN_KEY)
    &&& key_of(NODE_ID_KEY) != key_of(PORT_KEY)
    &&& key_of(NODE_ID_KEY) != key_of(IMPLIED_PORT_KEY)
    &&& key_of(NODE_ID_KEY) != key_of(PING_TYPE_KEY)
    &&& key_of(NODE_ID_KEY) != key_of(FIND_NODE_TYPE_KEY)
    &&& key_of(NODE_ID_KEY) != key_of(GET_PEERS_TYPE_KEY)
    &&& key_of(NODE_ID_KEY) != key_of(ANNOUNCE_PEER_TYPE_KEY)
    &&& key_of(NODES_KEY) != key_of(VALUES_KEY)
    &&& key_of(NODES_KEY) != key_of(TARGET_ID_KEY)
    &&& key_of(NODES_KEY) != key_of(INFO_HASH_KEY)
    &&& key_of(NODES_KEY) != key_of(TOKEN_KEY)
    &&& key_of(NODES_KEY) != key_of(PORT_KEY)
    &&& key_of(NODES_KEY) != key_of(IMPLIED_PORT_KEY)
    &&& key_of(NODES_KEY) != key_of(PING_TYPE_KEY)
    &&& key_of(NODES_KEY) != key_of(FIND_NODE_TYPE_KEY)
    &&& key_of(NODES_KEY) != key_of(GET_PEERS_TYPE_KEY)
    &&& key_of(NODES_KEY) != key_of(ANNOUNCE_PEER_TYPE_KEY)
    &&& key_of(VALUES_KEY) != key_of(TARGET_ID_KEY)
    &&& key_of(VALUES_KEY) != key_of(INFO_HASH_KEY)
    &&& key_of(VALUES_KEY) != key_of(TOKEN_KEY)
    &&& key_of(VALUES_KEY) != key_of(PORT_KEY)
    &&& key_of(VALUES_KEY) != key_of(IMPLIED_PORT_KEY)
    &&& key_of(VALUES_KEY) != key_of(PING_TYPE_KEY)
    &&& key_of(VALUES_KEY) != key_of(FIND_NODE_TYPE_KEY)
    &&& key_of(VALUES_KEY) != key_of(GET_PEERS_TYPE_KEY)
    &&& key_of(VALUES_KEY) != key_of(ANNOUNCE_PEER_TYPE_KEY)
    &&& key_of(TARGET_ID_KEY) != key_of(INFO_HASH_KEY)
    &&& key_of(TARGET_ID_KEY) != key_of(TOKEN_KEY)
    &&& key_of(TARGET_ID_KEY) != key_of(PORT_KEY)
    &&& key_of(TARGET_ID_KEY) != key_of(IMPLIED_PORT_KEY)
    &&& key_of(TARGET_ID_KEY) != key_of(PING_TYPE_KEY)
    &&& key_of(TARGET_ID_KEY) != key_of(FIND_NODE_TYPE_KEY)
    &&& key_of(TARGET_ID_KEY) != key_of(GET_PEERS_TYPE_KEY)
    &&& key_of(TARGET_ID_KEY) != key_of(ANNOUNCE_PEER_TYPE_KEY)
    &&& key_of(INFO_HASH_KEY) != key_of(TOKEN_KEY)
    &&& key_of(INFO_HASH_KEY) != key_of(PORT_KEY)
    &&& key_of(INFO_HASH_KEY) != key_of(IMPLIED_PORT_KEY)
    &&& key_of(INFO_HASH_KEY) != key_of(PING_TYPE_KEY)
    &&& key_of(INFO_HASH_KEY) != key_of(FIND_NODE_TYPE_KEY)
    &&& key_of(INFO_HASH_KEY) != key_of(GET_PEERS_TYPE_KEY)
    &&& key_of(INFO_HASH_KEY) != key_of(ANNOUNCE_PEER_TYPE_KEY)
    &&& key_of(TOKEN_KEY) != key_of(PORT_KEY)
    &&& key_of(TOKEN_KEY) != key_of(IMPLIED_PORT_KEY)
    &&& key_of(TOKEN_KEY) != key_of(PING_TYPE_KEY)
    &&& key_of(TOKEN_KEY) != key_of(FIND_NODE_TYPE_KEY)
    &&& key_of(TOKEN_KEY) != key_of(GET_PEERS_TYPE_KEY)
    &&& key_of(TOKEN_KEY) != key_of(ANNOUNCE_PEER_TYPE_KEY)
    &&& key_of(PORT_KEY) != key_of(IMPLIED_PORT_KEY)
    &&& key_of(PORT_KEY) != key_of(PING_TYPE_KEY)
    &&& key_of(PORT_KEY) != key_of(FIND_NODE_TYPE_KEY)
    &&& key_of(PORT_KEY) != key_of(GET_PEERS_TYPE_KEY)
    &&& key_of(PORT_KEY) != key_of(ANNOUNCE_PEER_TYPE_KEY)
    &&& key_of(IMPLIED_PORT_KEY) != key_of(PING_TYPE_KEY)
    &&& key_of(IMPLIED_PORT_KEY) != key_of(FIND_NODE_TYPE_KEY)
    &&& key_of(IMPLIED_PORT_KEY) != key_of(GET_PEERS_TYPE_KEY)
    &&& key_of(IMPLIED_PORT_KEY) != key_of(ANNOUNCE_PEER_TYPE_KEY)
    &&& key_of(PING_TYPE_KEY) != key_of(FIND_NODE_TYPE_KEY)
    &&& key_of(PING_TYPE_KEY) != key_of(GET_PEERS_TYPE_KEY)
    &&& key_of(PING_TYPE_KEY) != key_of(ANNOUNCE_PEER_TYPE_KEY)
    &&& key_of(FIND_NODE_TYPE_KEY) != key_of(GET_PEERS_TYPE_KEY)
    &&& key_of(FIND_NODE_TYPE_KEY) != key_of(ANNOUNCE_PEER_TYPE_KEY)
    &&& key_of(GET_PEERS_TYPE_KEY) != key_of(ANNOUNCE_PEER_TYPE_KEY)
}

/// No two keys of messages are the same.
pub proof fn lemma_keys_distinct()
    ensures
        keys_distinct(),
{
    lemma_keys();
    assert(key_of(TRANSACTION_ID_KEY)[0] != key_of(MESSAGE_TYPE_KEY)[0]);
    assert(key_of(TRANSACTION_ID_KEY)[0] != key_of(REQUEST_TYPE_KEY)[0]);
    assert(key_of(TRANSACTION_ID_KEY)[0] != key_of(RESPONSE_TYPE_KEY)[0]);
    assert(key_of(TRANSACTION_ID_KEY)[0] != key_of(ERROR_TYPE_KEY)[0]);
    assert(key_of(TRANSACTION_ID_KEY)[0] != key_of(REQUEST_ARGS_KEY)[0]);
    assert(key_of(TRANSACTION_ID_KEY).len() != key_of(NODE_ID_KEY).len());
    assert(key_of(TRANSACTION_ID_KEY).len() != key_of(NODES_KEY).len());
    assert(key_of(TRANSACTION_ID_KEY).len() != key_of(VALUES_KEY).len());
    assert(key_of(TRANSACTION_ID_KEY).len() != key_of(TARGET_ID_KEY).len());
    assert(key_of(TRANSACTION_ID_KEY).len() != key_of(INFO_HASH_KEY).len());
    assert(key_of(TRANSACTION_ID_KEY).len() != key_of(TOKEN_KEY).len());
    assert(key_of(TRANSACTION_ID_KEY).len() != key_of(PORT_KEY).len());
    assert(key_of(TRANSACTION_ID_KEY).len() != key_of(IMPLIED_PORT_KEY).len());
    assert(key_of(TRANSACTION_ID_KEY).len() != key_of(PING_TYPE_KEY).len());
    assert(key_of(TRANSACTION_ID_KEY).len() != key_of(FIND_NODE_TYPE_KEY).len());
    assert(key_of(TRANSACTION_ID_KEY).len() != key_of(GET_PEERS_TYPE_KEY).len());
    assert(key_of(TRANSACTION_ID_KEY).len() != key_of(ANNOUNCE_PEER_TYPE_KEY).len());
    assert(key_of(MESSAGE_TYPE_KEY)[0] != key_of(REQUEST_TYPE_KEY)[0]);
    assert(key_of(MESSAGE_TYPE_KEY)[0] != key_of(RESPONSE_TYPE_KEY)[0]);
    assert(key_of(MESSAGE_TYPE_KEY)[0] != key_of(ERROR_TYPE_KEY)[0]);
    assert(key_of(MESSAGE_TYPE_KEY)[0] != key_of(REQUEST_ARGS_KEY)[0]);
    assert(key_of(MESSAGE_TYPE_KEY).len() != key_of(NODE_ID_KEY).len());
    assert(key_of(MESSAGE_TYPE_KEY).len() != key_of(NODES_KEY).len());
    assert(key_of(MESSAGE_TYPE_KEY).len() != key_of(VALUES_KEY).len());
    assert(key_of(MESSAGE_TYPE_KEY).len() != key_of(TARGET_ID_KEY).len());
    assert(key_of(MESSAGE_TYPE_KEY).len() != key_of(INFO_HASH_KEY).len());
    assert(key_of(MESSAGE_TYPE_KEY).len() != key_of(TOKEN_KEY).len());
    assert(key_of(MESSAGE_TYPE_KEY).len() != key_of(PORT_KEY).len());
    assert(key_of(MESSAGE_TYPE_KEY).len() != key_of(IMPLIED_PORT_KEY).len());
    assert(key_of(MESSAGE_TYPE_KEY).len() != key_of(PING_TYPE_KEY).len());
    assert(key_of(MESSAGE_TYPE_KEY).len() != key_of(FIND_NODE_TYPE_KEY).len());
    assert(key_of(MESSAGE_TYPE_KEY).len() != key_of(GET_PEERS_TYPE_KEY).len());
    assert(key_of(MESSAGE_TYPE_KEY).len() != key_of(ANNOUNCE_PEER_TYPE_KEY).len());
    assert(key_of(REQUEST_TYPE_KEY)[0] != key_of(RESPONSE_TYPE_KEY)[0]);
    assert(key_of(REQUEST_TYPE_KEY)[0] != key_of(ERROR_TYPE_KEY)[0]);
    assert(key_of(REQUEST_TYPE_KEY)[0] != key_of(REQUEST_ARGS_KEY)[0]);
    assert(key_of(REQUEST_TYPE_KEY).len() != key_of(NODE_ID_KEY).len());
    assert(key_of(REQUEST_TYPE_KEY).len() != key_of(NODES_KEY).len());
    assert(key_of(REQUEST_TYPE_KEY).len() != key_of(VALUES_KEY).len());
    assert(key_of(REQUEST_TYPE_KEY).len() != key_of(TARGET_ID_KEY).len());
    assert(key_of(REQUEST_TYPE_KEY).len() != key_of(INFO_HASH_KEY).len());
    assert(key_of(REQUEST_TYPE_KEY).len() != key_of(TOKEN_KEY).len());
    assert(key_of(REQUEST_TYPE_KEY).len() != key_of(PORT_KEY).len());
    assert(key_of(REQUEST_TYPE_KEY).len() != key_of(IMPLIED_PORT_KEY).len());
    assert(key_of(REQUEST_TYPE_KEY).len() != key_of(PING_TYPE_KEY).len());
    assert(key_of(REQUEST_TYPE_KEY).len() != key_of(FIND_NODE_TYPE_KEY).len());
    assert(key_of(REQUEST_TYPE_KEY).len() != key_of(GET_PEERS_TYPE_KEY).len());
    assert(key_of(REQUEST_TYPE_KEY).len() != key_of(ANNOUNCE_PEER_TYPE_KEY).len());
    assert(key_of(RESPONSE_TYPE_KEY)[0] != key_of(ERROR_TYPE_KEY)[0]);
    assert(key_of(RESPONSE_TYPE_KEY)[0] != key_of(REQUEST_ARGS_KEY)[0]);
    assert(key_of(RESPONSE_TYPE_KEY).len() != key_of(NODE_ID_KEY).len());
    assert(key_of(RESPONSE_TYPE_KEY).len() != key_of(NODES_KEY).len());
    assert(key_of(RESPONSE_TYPE_KEY).len() != key_of(VALUES_KEY).len());
    assert(key_of(RESPONSE_TYPE_KEY).len() != key_of(TARGET_ID_KEY).len());
    assert(key_of(RESPONSE_TYPE_KEY).len() != key_of(INFO_HASH_KEY).len());
    assert(key_of(RESPONSE_TYPE_KEY).len() != key_of(TOKEN_KEY).len());
    assert(key_of(RESPONSE_TYPE_KEY).len() != key_of(PORT_KEY).len());
    assert(key_of(RESPONSE_TYPE_KEY).len() != key_of(IMPLIED_PORT_KEY).len());
    assert(key_of(RESPONSE_TYPE_KEY).len() != key_of(PING_TYPE_KEY).len());
    assert(key_of(RESPONSE_TYPE_KEY).len() != key_of(FIND_NODE_TYPE_KEY).len());
    assert(key_of(RESPONSE_TYPE_KEY).len() != key_of(GET_PEERS_TYPE_KEY).len());
    assert(key_of(RESPONSE_TYPE_KEY).len() != key_of(ANNOUNCE_PEER_TYPE_KEY).len());
    assert(key_of(ERROR_TYPE_KEY)[0] != key_of(REQUEST_ARGS_KEY)[0]);
    assert(key_of(ERROR_TYPE_KEY).len() != key_of(NODE_ID_KEY).len());
    assert(key_of(ERROR_TYPE_KEY).len() != key_of(NODES_KEY).len());
    assert(key_of(ERROR_TYPE_KEY).len() != key_of(VALUES_KEY).len());
    assert(key_of(ERROR_TYPE_KEY).len() != key_of(TARGET_ID_KEY).len());
    assert(key_of(ERROR_TYPE_KEY).len() != key_of(INFO_HASH_KEY).len());
    assert(key_of(ERROR_TYPE_KEY).len() != key_of(TOKEN_KEY).len());
    assert(key_of(ERROR_TYPE_KEY).len() != key_of(PORT_KEY).len());
    assert(key_of(ERROR_TYPE_KEY).len() != key_of(IMPLIED_PORT_KEY).len());
    assert(key_of(ERROR_TYPE_KEY).len() != key_of(PING_TYPE_KEY).len());
    assert(key_of(ERROR_TYPE_KEY).len() != key_of(FIND_NODE_TYPE_KEY).len());
    assert(key_of(ERROR_TYPE_KEY).len() != key_of(GET_PEERS_TYPE_KEY).len());
    assert(key_of(ERROR_TYPE_KEY).len() != key_of(ANNOUNCE_PEER_TYPE_KEY).len());
    assert(key_of(REQUEST_ARGS_KEY).len() != key_of(NODE_ID_KEY).len());
    assert(key_of(REQUEST_ARGS_KEY).len() != key_of(NODES_KEY).len());
    assert(key_of(REQUEST_ARGS_KEY).len() != key_of(VALUES_KEY).len());
    assert(key_of(REQUEST_ARGS_KEY).len() != key_of(TARGET_ID_KEY).len());
    assert(key_of(REQUEST_ARGS_KEY).len() != key_of(INFO_HASH_KEY).len());
    assert(key_of(REQUEST_ARGS_KEY).len() != key_of(TOKEN_KEY).len());
    assert(key_of(REQUEST_ARGS_KEY).len() != key_of(PORT_KEY).len());
    assert(key_of(REQUEST_ARGS_KEY).len() != key_of(IMPLIED_PORT_KEY).len());
    assert(key_of(REQUEST_ARGS_KEY).len() != key_of(PING_TYPE_KEY).len());
    assert(key_of(REQUEST_ARGS_KEY).len() != key_of(FIND_NODE_TYPE_KEY).len());
    assert(key_of(REQUEST_ARGS_KEY).len() != key_of(GET_PEERS_TYPE_KEY).len());
    assert(key_of(REQUEST_ARGS_KEY).len() != key_of(ANNOUNCE_PEER_TYPE_KEY).len());
    assert(key_of(NODE_ID_KEY).len() != key_of(NODES_KEY).len());
    assert(key_of(NODE_ID_KEY).len() != key_of(VALUES_KEY).len());
    assert(key_of(NODE_ID_KEY).len() != key_of(TARGET_ID_KEY).len());
    assert(key_of(NODE_ID_KEY).len() != key_of(INFO_HASH_KEY).len());
    assert(key_of(NODE_ID_KEY).len() != key_of(TOKEN_KEY).len());
    assert(key_of(NODE_ID_KEY).len() != key_of(PORT_KEY).len());
    assert(key_of(NODE_ID_KEY).len() != key_of(IMPLIED_PORT_KEY).len());
    assert(key_of(NODE_ID_KEY).len() != key_of(PING_TYPE_KEY).len());
    assert(key_of(NODE_ID_KEY).len() != key_of(FIND_NODE_TYPE_KEY).len());
    assert(key_of(NODE_ID_KEY).len() != key_of(GET_PEERS_TYPE_KEY).len());
    assert(key_of(NODE_ID_KEY).len() != key_of(ANNOUNCE_PEER_TYPE_KEY).len());
    assert(key_of(NODES_KEY).len() != key_of(VALUES_KEY).len());
    assert(key_of(NODES_KEY).len() != key_of(TARGET_ID_KEY).len());
    assert(key_of(NODES_KEY).len() != key_of(INFO_HASH_KEY).len());
    assert(key_of(NODES_KEY)[0] != key_of(TOKEN_KEY)[0]);
    assert(key_of(NODES_KEY).len() != key_of(PORT_KEY).len());
    assert(key_of(NODES_KEY).len() != key_of(IMPLIED_PORT_KEY).len());
    assert(key_of(NODES_KEY).len() != key_of(PING_TYPE_KEY).len());
    assert(key_of(NODES_KEY).len() != key_of(FIND_NODE_TYPE_KEY).len());
    assert(key_of(NODES_KEY).len() != key_of(GET_PEERS_TYPE_KEY).len());
    assert(key_of(NODES_KEY).len() != key_of(ANNOUNCE_PEER_TYPE_KEY).len());
    assert(key_of(VALUES_KEY)[0] != key_of(TARGET_ID_KEY)[0]);
    assert(key_of(VALUES_KEY).len() != key_of(INFO_HASH_KEY).len());
    assert(key_of(VALUES_KEY).len() != key_of(TOKEN_KEY).len());
    assert(key_of(VALUES_KEY).len() != key_of(PORT_KEY).len());
    assert(key_of(VALUES_KEY).len() != key_of(IMPLIED_PORT_KEY).len());
    assert(key_of(VALUES_KEY).len() != key_of(PING_TYPE_KEY).len());
    assert(key_of(VALUES_KEY).len() != key_of(FIND_NODE_TYPE_KEY).len());
    assert(key_of(VALUES_KEY).len() != key_of(GET_PEERS_TYPE_KEY).len());
    assert(key_of(VALUES_KEY).len() != key_of(ANNOUNCE_PEER_TYPE_KEY).len());
    assert(key_of(TARGET_ID_KEY).len() != key_of(INFO_HASH_KEY).len());
    assert(key_of(TARGET_ID_KEY).len() != key_of(TOKEN_KEY).len());
    assert(key_of(TARGET_ID_KEY).len() != key_of(PORT_KEY).len());
    assert(key_of(TARGET_ID_KEY).len() != key_of(IMPLIED_PORT_KEY).len());
    assert(key_of(TARGET_ID_KEY).len() != key_of(PING_TYPE_KEY).len());
    assert(key_of(TARGET_ID_KEY).len() != key_of(FIND_NODE_TYPE_KEY).len());
    assert(key_of(TARGET_ID_KEY).len() != key_of(GET_PEERS_TYPE_KEY).len());
    assert(key_of(TARGET_ID_KEY).len() != key_of(ANNOUNCE_PEER_TYPE_KEY).len());
    assert(key_of(INFO_HASH_KEY).len() != key_of(TOKEN_KEY).len());
    assert(key_of(INFO_HASH_KEY).len() != key_of(PORT_KEY).len());
    assert(key_of(INFO_HASH_KEY).len() != key_of(IMPLIED_PORT_KEY).len());
    assert(key_of(INFO_HASH_KEY).len() != key_of(PING_TYPE_KEY).len());
    assert(key_of(INFO_HASH_KEY)[0] != key_of(FIND_NODE_TYPE_KEY)[0]);
    assert(key_of(INFO_HASH_KEY)[0] != key_of(GET_PEERS_TYPE_KEY)[0]);
    assert(key_of(INFO_HASH_KEY).len() != key_of(ANNOUNCE_PEER_TYPE_KEY).len());
    assert(key_of(TOKEN_KEY).len() != key_of(PORT_KEY).len());
    assert(key_of(TOKEN_KEY).len() != key_of(IMPLIED_PORT_KEY).len());
    assert(key_of(TOKEN_KEY).len() != key_of(PING_TYPE_KEY).len());
    assert(key_of(TOKEN_KEY).len() != key_of(FIND_NODE_TYPE_KEY).len());
    assert(key_of(TOKEN_KEY).len() != key_of(GET_PEERS_TYPE_KEY).len());
    assert(key_of(TOKEN_KEY).len() != key_of(ANNOUNCE_PEER_TYPE_KEY).len());
    assert(key_of(PORT_KEY).len() != key_of(IMPLIED_PORT_KEY).len());
    assert(key_of(PORT_KEY)[1] != key_of(PING_TYPE_KEY)[1]);
    assert(key_of(PORT_KEY).len() != key_of(FIND_NODE_TYPE_KEY).len());
    assert(key_of(PORT_KEY).len() != key_of(GET_PEERS_TYPE_KEY).len());
    assert(key_of(PORT_KEY).len() != key_of(ANNOUNCE_PEER_TYPE_KEY).len());
    assert(key_of(IMPLIED_PORT_KEY).len() != key_of(PING_TYPE_KEY).len());
    assert(key_of(IMPLIED_PORT_KEY).len() != key_of(FIND_NODE_TYPE_KEY).len());
    assert(key_of(IMPLIED_PORT_KEY).len() != key_of(GET_PEERS_TYPE_KEY).len());
    assert(key_of(IMPLIED_PORT_KEY).len() != key_of(ANNOUNCE_PEER_TYPE_KEY).len());
    assert(key_of(PING_TYPE_KEY).len() != key_of(FIND_NODE_TYPE_KEY).len());
    assert(key_of(PING_TYPE_KEY).len() != key_of(GET_PEERS_TYPE_KEY).len());
    assert(key_of(PING_TYPE_KEY).len() != key_of(ANNOUNCE_PEER_TYPE_KEY).len());
    assert(key_of(FIND_NODE_TYPE_KEY)[0] != key_of(GET_PEERS_TYPE_KEY)[0]);
    assert(key_of(FIND_NODE_TYPE_KEY).len() != key_of(ANNOUNCE_PEER_TYPE_KEY).len());
    assert(key_of(GET_PEERS_TYPE_KEY).len() != key_of(ANNOUNCE_PEER_TYPE_KEY).len());
}

} // verus!
