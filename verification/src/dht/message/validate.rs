//! Validation shared by queries and responses.

use crate::bencode::convert::{
    bytes_at, dict_at, int_at, list_at, lookup_and_convert_bytes, lookup_and_convert_dict,
    lookup_and_convert_int, lookup_and_convert_list, BencodeConvertError,
};
use crate::bencode::text::key_of;
use crate::bencode::value::{items_view, Bencode, BencodeValue, Entries};
use crate::dht::error::{invalid, invalid_message, Detail, DetailView, DhtError, DhtFault, Side};
use crate::dht::message::compact_info::{values_wf, CompactNodeInfo, CompactValueInfo};
use crate::util::bt::{InfoHash, NodeId, ShaHash};
use vstd::prelude::*;

verus! {

/// Whether every item of `values` is a byte string.
pub open spec fn all_bytes(values: Seq<BencodeValue>) -> bool {
    forall|i: int| 0 <= i < values.len() ==> (#[trigger] values[i]) is Bytes
}

/// The node id that `bytes` are, or the fault of their length.
pub open spec fn node_id_of(side: Side, trans_id: Seq<u8>, bytes: Seq<u8>) -> Result<
    Seq<u8>,
    DhtFault,
> {
    if bytes.len() == 20 {
        Ok(bytes)
    } else {
        Err(invalid(side, trans_id, DetailView::NodeIdLength(bytes.len() as usize)))
    }
}

/// The info hash that `bytes` are, or the fault of their length.
pub open spec fn info_hash_of(side: Side, trans_id: Seq<u8>, bytes: Seq<u8>) -> Result<
    Seq<u8>,
    DhtFault,
> {
    if bytes.len() == 20 {
        Ok(bytes)
    } else {
        Err(invalid(side, trans_id, DetailView::InfoHashLength(bytes.len() as usize)))
    }
}

/// The compact node information that `bytes` are, or the fault of their
/// length.
pub open spec fn nodes_of(side: Side, trans_id: Seq<u8>, bytes: Seq<u8>) -> Result<
    Seq<u8>,
    DhtFault,
> {
    if bytes.len() % 26 == 0 {
        Ok(bytes)
    } else {
        Err(invalid(side, trans_id, DetailView::NodesLength(bytes.len() as usize)))
    }
}

/// The compact values that `values` are, or what is wrong with them: first
/// that an item is no byte string, then that one has not six bytes.
pub open spec fn values_of(side: Side, trans_id: Seq<u8>, values: Seq<BencodeValue>) -> Result<
    Seq<BencodeValue>,
    DhtFault,
> {
    if !all_bytes(values) {
        Err(invalid(side, trans_id, DetailView::ValuesNotBytes))
    } else if !values_wf(values) {
        Err(invalid(side, trans_id, DetailView::ValuesLength))
    } else {
        Ok(values)
    }
}

/// The byte string under `key`, or the fault of looking it up.
pub open spec fn required_bytes(side: Side, trans_id: Seq<u8>, root: BencodeValue, key: Seq<u8>) -> Result<
    Seq<u8>,
    DhtFault,
> {
    match bytes_at(root, key) {
        Ok(b) => Ok(b),
        Err(fault) => Err(invalid(side, trans_id, DetailView::Convert(fault))),
    }
}

/// The integer under `key`, or the fault of looking it up.
pub open spec fn required_int(side: Side, trans_id: Seq<u8>, root: BencodeValue, key: Seq<u8>) -> Result<
    i64,
    DhtFault,
> {
    match int_at(root, key) {
        Ok(i) => Ok(i),
        Err(fault) => Err(invalid(side, trans_id, DetailView::Convert(fault))),
    }
}

/// The list under `key`, or the fault of looking it up.
pub open spec fn required_list(side: Side, trans_id: Seq<u8>, root: BencodeValue, key: Seq<u8>) -> Result<
    Seq<BencodeValue>,
    DhtFault,
> {
    match list_at(root, key) {
        Ok(l) => Ok(l),
        Err(fault) => Err(invalid(side, trans_id, DetailView::Convert(fault))),
    }
}

/// The dictionary under `key`, or the fault of looking it up.
pub open spec fn required_dict(side: Side, trans_id: Seq<u8>, root: BencodeValue, key: Seq<u8>) -> Result<
    Entries,
    DhtFault,
> {
    match dict_at(root, key) {
        Ok(d) => Ok(d),
        Err(fault) => Err(invalid(side, trans_id, DetailView::Convert(fault))),
    }
}

/// The node id under `key`: a byte string of twenty bytes.
pub open spec fn required_node_id(
    side: Side,
    trans_id: Seq<u8>,
    root: BencodeValue,
    key: Seq<u8>,
) -> Result<Seq<u8>, DhtFault> {
    match required_bytes(side, trans_id, root, key) {
        Ok(b) => node_id_of(side, trans_id, b),
        Err(fault) => Err(fault),
    }
}

/// The info hash under `key`: a byte string of twenty bytes.
pub open spec fn required_info_hash(
    side: Side,
    trans_id: Seq<u8>,
    root: BencodeValue,
    key: Seq<u8>,
) -> Result<Seq<u8>, DhtFault> {
    match required_bytes(side, trans_id, root, key) {
        Ok(b) => info_hash_of(side, trans_id, b),
        Err(fault) => Err(fault),
    }
}

/// Validation for one side of one transaction.
#[derive(Copy, Clone, Debug)]
pub struct Validate<'a> {
    pub side: Side,
    pub trans_id: &'a [u8],
}

impl<'a> Validate<'a> {
    /// Validation for the messages of `side` in the transaction `trans_id`.
    pub fn new(side: Side, trans_id: &'a [u8]) -> (r: Validate<'a>)
        ensures
            r.side == side,
            r.trans_id@ == trans_id@,
    {
        Validate { side, trans_id }
    }

    /// The error of this side and transaction for a failed lookup.
    pub fn handle_error(&self, error: BencodeConvertError) -> (r: DhtError)
        ensures
            r@ == invalid(self.side, self.trans_id@, DetailView::Convert(error@)),
    {
        invalid_message(self.side, self.trans_id, Detail::Convert(error))
    }

    /// Validate and deserialize bytes into a `NodeId`.
    pub fn validate_node_id(&self, node_id: &[u8]) -> (r: Result<NodeId, DhtError>)
        ensures
            match node_id_of(self.side, self.trans_id@, node_id@) {
                Ok(id) => r matches Ok(found) && found@ == id,
                Err(fault) => r matches Err(e) && e@ == fault,
            },
    {
        match ShaHash::from_hash(node_id) {
            Ok(id) => Ok(id),
            Err(_) => Err(
                invalid_message(self.side, self.trans_id, Detail::NodeIdLength(node_id.len())),
            ),
        }
    }

    /// Validate and deserialize bytes into an `InfoHash`.
    pub fn validate_info_hash(&self, info_hash: &[u8]) -> (r: Result<InfoHash, DhtError>)
        ensures
            match info_hash_of(self.side, self.trans_id@, info_hash@) {
                Ok(hash) => r matches Ok(found) && found@ == hash,
                Err(fault) => r matches Err(e) && e@ == fault,
            },
    {
        match ShaHash::from_hash(info_hash) {
            Ok(hash) => Ok(hash),
            Err(_) => Err(
                invalid_message(self.side, self.trans_id, Detail::InfoHashLength(info_hash.len())),
            ),
        }
    }

    /// Validate and deserialize bytes into a `CompactNodeInfo`.
    pub fn validate_nodes<'b>(&self, nodes: &'b [u8]) -> (r: Result<CompactNodeInfo<'b>, DhtError>)
        ensures
            match nodes_of(self.side, self.trans_id@, nodes@) {
                Ok(bytes) => r matches Ok(found) && found.nodes@ == bytes && found.wf(),
                Err(fault) => r matches Err(e) && e@ == fault,
            },
    {
        match CompactNodeInfo::new(nodes) {
            Ok(info) => Ok(info),
            Err(_) => Err(
                invalid_message(self.side, self.trans_id, Detail::NodesLength(nodes.len())),
            ),
        }
    }

    /// Validate and deserialize a list into a `CompactValueInfo`.
    pub fn validate_values<'b>(&self, values: &'b Vec<Bencode>) -> (r: Result<
        CompactValueInfo<'b>,
        DhtError,
    >)
        ensures
            match values_of(self.side, self.trans_id@, items_view(values@)) {
                Ok(items) => r matches Ok(found) && found.values@ == values@ && found.wf(),
                Err(fault) => r matches Err(e) && e@ == fault,
            },
    {
        let ghost items = items_view(values@);
        let mut i: usize = 0;
        while i < values.len()
            invariant
                i <= values.len(),
                items == items_view(values@),
                forall|j: int| 0 <= j < i ==> (#[trigger] items[j]) is Bytes,
            decreases values.len() - i,
        {
            match values[i].as_bytes() {
                Some(_) => {},
                None => {
                    assert(!(items[i as int] is Bytes));
                    return Err(invalid_message(self.side, self.trans_id, Detail::ValuesNotBytes));
                },
            }
            i += 1;
        }
        match CompactValueInfo::new(values) {
            Ok(info) => Ok(info),
            Err(_) => Err(invalid_message(self.side, self.trans_id, Detail::ValuesLength)),
        }
    }

    /// Look up the byte string under `key` of `dict`.
    pub fn lookup_and_convert_bytes<'b>(&self, dict: &'b Bencode, key: &str) -> (r: Result<
        &'b [u8],
        DhtError,
    >)
        ensures
            match required_bytes(self.side, self.trans_id@, dict@, key_of(key)) {
                Ok(b) => r matches Ok(found) && found@ == b,
                Err(fault) => r matches Err(e) && e@ == fault,
            },
    {
        match lookup_and_convert_bytes(dict, key.as_bytes()) {
            Ok(found) => Ok(found),
            Err(e) => Err(self.handle_error(e)),
        }
    }

    /// Look up the integer under `key` of `dict`.
    pub fn lookup_and_convert_int(&self, dict: &Bencode, key: &str) -> (r: Result<i64, DhtError>)
        ensures
            match required_int(self.side, self.trans_id@, dict@, key_of(key)) {
                Ok(i) => r == Ok::<i64, DhtError>(i),
                Err(fault) => r matches Err(e) && e@ == fault,
            },
    {
        match lookup_and_convert_int(dict, key.as_bytes()) {
            Ok(found) => Ok(found),
            Err(e) => Err(self.handle_error(e)),
        }
    }

    /// Look up the list under `key` of `dict`.
    pub fn lookup_and_convert_list<'b>(&self, dict: &'b Bencode, key: &str) -> (r: Result<
        &'b Vec<Bencode>,
        DhtError,
    >)
        ensures
            match required_list(self.side, self.trans_id@, dict@, key_of(key)) {
                Ok(l) => r matches Ok(found) && items_view(found@) == l,
                Err(fault) => r matches Err(e) && e@ == fault,
            },
    {
        match lookup_and_convert_list(dict, key.as_bytes()) {
            Ok(found) => Ok(found),
            Err(e) => Err(self.handle_error(e)),
        }
    }

    /// Look up the dictionary under `key` of `dict`.
    pub fn lookup_and_convert_dict<'b>(&self, dict: &'b Bencode, key: &str) -> (r: Result<
        &'b Bencode,
        DhtError,
    >)
        ensures
            match required_dict(self.side, self.trans_id@, dict@, key_of(key)) {
                Ok(d) => r matches Ok(found) && found@ == BencodeValue::Dict(d),
                Err(fault) => r matches Err(e) && e@ == fault,
            },
    {
        match lookup_and_convert_dict(dict, key.as_bytes()) {
            Ok(found) => Ok(found),
            Err(e) => Err(self.handle_error(e)),
        }
    }

    /// Look up the node id under `key` of `dict`.
    pub fn lookup_node_id(&self, dict: &Bencode, key: &str) -> (r: Result<NodeId, DhtError>)
        ensures
            match required_node_id(self.side, self.trans_id@, dict@, key_of(key)) {
                Ok(id) => r matches Ok(found) && found@ == id,
                Err(fault) => r matches Err(e) && e@ == fault,
            },
    {
        match self.lookup_and_convert_bytes(dict, key) {
            Ok(bytes) => self.validate_node_id(bytes),
            Err(e) => Err(e),
        }
    }

    /// Look up the info hash under `key` of `dict`.
    pub fn lookup_info_hash(&self, dict: &Bencode, key: &str) -> (r: Result<InfoHash, DhtError>)
        ensures
            match required_info_hash(self.side, self.trans_id@, dict@, key_of(key)) {
                Ok(hash) => r matches Ok(found) && found@ == hash,
                Err(fault) => r matches Err(e) && e@ == fault,
            },
    {
        match self.lookup_and_convert_bytes(dict, key) {
            Ok(bytes) => self.validate_info_hash(bytes),
            Err(e) => Err(e),
        }
    }
}

} // verus!
