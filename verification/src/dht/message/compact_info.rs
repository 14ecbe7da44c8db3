//! Compact node information and compact peer endpoints.
//!
//! Compact node information is a byte string of entries of 26 bytes: a node
//! id of twenty bytes and a compact IPv4 endpoint of six. Compact values are
//! a list of byte strings, each a compact IPv4 endpoint.

use crate::bencode::value::{items_view, Bencode, BencodeValue};
use crate::util::bt::{NodeId, ShaHash};
use crate::util::error::{LengthError, LengthErrorKind};
use crate::util::net::SocketAddrV4;
use vstd::prelude::*;
use vstd::slice::slice_subrange;

verus! {

/// Length of one entry of compact node information.
pub const BYTES_PER_COMPACT_NODE_INFO: usize = 26;

/// Length of one compact peer endpoint.
pub const BYTES_PER_COMPACT_IP: usize = 6;

/// Compact node information over the bytes of a message.
#[derive(Copy, Clone, Debug, PartialEq, Eq)]
pub struct CompactNodeInfo<'a> {
    pub nodes: &'a [u8],
}

impl<'a> CompactNodeInfo<'a> {
    /// The bytes are a whole number of entries.
    pub open spec fn wf(&self) -> bool {
        self.nodes@.len() % 26 == 0
    }

    /// Compact node information over `nodes`, whose length must be a multiple
    /// of 26.
    pub fn new(nodes: &'a [u8]) -> (r: Result<CompactNodeInfo<'a>, LengthError>)
        ensures
            nodes@.len() % 26 == 0 ==> (r matches Ok(info) && info.nodes@ == nodes@ && info.wf()),
            nodes@.len() % 26 != 0 ==> r == Err::<CompactNodeInfo<'a>, LengthError>(
                LengthError {
                    kind: LengthErrorKind::LengthMultipleExpected,
                    length: 26,
                    index: None,
                },
            ),
    {
        if nodes.len() % BYTES_PER_COMPACT_NODE_INFO != 0 {
            Err(
                LengthError::new(
                    LengthErrorKind::LengthMultipleExpected,
                    BYTES_PER_COMPACT_NODE_INFO,
                ),
            )
        } else {
            Ok(CompactNodeInfo { nodes })
        }
    }

    /// The bytes of all entries.
    pub fn nodes(&self) -> (r: &'a [u8])
        ensures
            r@ == self.nodes@,
    {
        self.nodes
    }

    /// The number of entries.
    pub fn len(&self) -> (r: usize)
        ensures
            r == self.nodes@.len() / 26,
    {
        self.nodes.len() / BYTES_PER_COMPACT_NODE_INFO
    }

    /// The entry at `index`: a node id and an endpoint.
    pub fn get(&self, index: usize) -> (r: Option<(NodeId, SocketAddrV4)>)
        requires
            self.wf(),
        ensures
            r is Some <==> index < self.nodes@.len() / 26,
            r matches Some((id, addr)) ==> id@ == self.nodes@.subrange(26 * index, 26 * index + 20)
                && addr.compact() == self.nodes@.subrange(26 * index + 20, 26 * index + 26),
    {
        if index >= self.nodes.len() / BYTES_PER_COMPACT_NODE_INFO {
            return None;
        }
        let at = index * BYTES_PER_COMPACT_NODE_INFO;
        let id = match ShaHash::from_hash(slice_subrange(self.nodes, at, at + 20)) {
            Ok(id) => id,
            Err(_) => {
                return None;
            },
        };
        match SocketAddrV4::read_compact(self.nodes, at + 20) {
            Some(addr) => Some((id, addr)),
            None => None,
        }
    }
}

/// Whether every item of `values` is a byte string of six bytes.
pub open spec fn values_wf(values: Seq<BencodeValue>) -> bool {
    forall|i: int|
        0 <= i < values.len() ==> (#[trigger] values[i]) is Bytes && values[i]->Bytes_0.len() == 6
}

/// The least index of an item of `values` that is not a byte string of six
/// bytes; the length of `values` where there is none.
pub open spec fn first_bad_value(values: Seq<BencodeValue>) -> int
    decreases values.len(),
{
    if values.len() == 0 {
        0
    } else if !(values[0] is Bytes && values[0]->Bytes_0.len() == 6) {
        0
    } else {
        1 + first_bad_value(values.drop_first())
    }
}

/// `first_bad_value` is the length exactly where all values are in order.
pub proof fn lemma_first_bad_value(values: Seq<BencodeValue>)
    ensures
        0 <= first_bad_value(values) <= values.len(),
        first_bad_value(values) == values.len() <==> values_wf(values),
        forall|i: int|
            0 <= i < first_bad_value(values) ==> (#[trigger] values[i]) is Bytes
                && values[i]->Bytes_0.len() == 6,
    decreases values.len(),
{
    if values.len() > 0 {
        let rest = values.drop_first();
        lemma_first_bad_value(rest);
        if values[0] is Bytes && values[0]->Bytes_0.len() == 6 {
            assert forall|i: int| 0 <= i < first_bad_value(values) implies (
            #[trigger] values[i]) is Bytes && values[i]->Bytes_0.len() == 6 by {
                if i > 0 {
                    assert(values[i] == rest[i - 1]);
                }
            }
            if first_bad_value(values) == values.len() {
                assert forall|i: int| 0 <= i < values.len() implies (
                #[trigger] values[i]) is Bytes && values[i]->Bytes_0.len() == 6 by {}
            }
            if values_wf(values) {
                assert forall|i: int| 0 <= i < rest.len() implies (#[trigger] rest[i]) is Bytes
                    && rest[i]->Bytes_0.len() == 6 by {
                    assert(rest[i] == values[i + 1]);
                }
            }
        } else {
            assert(!values_wf(values)) by {
                if values_wf(values) {
                    assert(values[0] is Bytes && values[0]->Bytes_0.len() == 6);
                }
            }
        }
    }
}

/// Compact peer endpoints over a list of a message.
#[derive(Copy, Clone, Debug, PartialEq, Eq)]
pub struct CompactValueInfo<'a> {
    pub values: &'a Vec<Bencode>,
}

impl<'a> CompactValueInfo<'a> {
    /// Every item is a byte string of six bytes.
    pub open spec fn wf(&self) -> bool {
        values_wf(items_view(self.values@))
    }

    /// Compact values over `values`, each of which must be a byte string of
    /// six bytes. The error names the first that is not.
    pub fn new(values: &'a Vec<Bencode>) -> (r: Result<CompactValueInfo<'a>, LengthError>)
        ensures
            values_wf(items_view(values@)) ==> (r matches Ok(info) && info.values@ == values@),
            !values_wf(items_view(values@)) ==> r == Err::<CompactValueInfo<'a>, LengthError>(
                LengthError {
                    kind: LengthErrorKind::LengthExpected,
                    length: 6,
                    index: Some(first_bad_value(items_view(values@)) as usize),
                },
            ),
    {
        let ghost items = items_view(values@);
        let mut index: usize = 0;
        assert(items.skip(0) =~= items);
        while index < values.len()
            invariant
                index <= values.len(),
                items == items_view(values@),
                first_bad_value(items) == index + first_bad_value(items.skip(index as int)),
            decreases values.len() - index,
        {
            proof {
                assert(items.skip(index as int)[0] == items[index as int]);
                assert(items.skip(index as int).drop_first() =~= items.skip(index + 1));
                lemma_first_bad_value(items);
            }
            let in_order = match values[index].as_bytes() {
                Some(compact_value) => compact_value.len() == BYTES_PER_COMPACT_IP,
                None => false,
            };
            if !in_order {
                return Err(
                    LengthError::with_index(
                        LengthErrorKind::LengthExpected,
                        BYTES_PER_COMPACT_IP,
                        index,
                    ),
                );
            }
            index += 1;
        }
        proof {
            assert(items.skip(index as int) =~= Seq::<BencodeValue>::empty());
            lemma_first_bad_value(items);
        }
        Ok(CompactValueInfo { values })
    }

    /// The values as they stand in the message.
    pub fn values(&self) -> (r: &'a Vec<Bencode>)
        ensures
            r@ == self.values@,
    {
        self.values
    }

    /// The number of endpoints.
    pub fn len(&self) -> (r: usize)
        ensures
            r == self.values@.len(),
    {
        self.values.len()
    }

    /// The endpoint at `index`.
    pub fn get(&self, index: usize) -> (r: Option<SocketAddrV4>)
        requires
            self.wf(),
        ensures
            r is Some <==> index < self.values@.len(),
            r matches Some(addr) ==> BencodeValue::Bytes(addr.compact()) == self.values@[index as int]@,
    {
        if index >= self.values.len() {
            return None;
        }
        assert(items_view(self.values@)[index as int] == self.values@[index as int]@);
        match self.values[index].as_bytes() {
            Some(bytes) => {
                match SocketAddrV4::read_compact(bytes, 0) {
                    Some(addr) => {
                        assert(bytes@.subrange(0, 6) =~= bytes@);
                        Some(addr)
                    },
                    None => None,
                }
            },
            None => None,
        }
    }
}

} // verus!
