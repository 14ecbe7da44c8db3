//! The handshake of the extension protocol.
//!
//! It is a bencoded dictionary whose entry `m` is a dictionary from the names
//! of extensions to the ids under which the sender wants to receive their
//! messages. The id 0 switches an extension off.

use crate::bencode::convert::{dict_at, lookup_and_convert_dict};
use crate::bencode::decode::{parse_whole, BencodeParseError, MAX_DEPTH};
use crate::bencode::encode::encode_value;
use crate::bencode::text::key_of;
use crate::bencode::laws::{lemma_decode_encode, lemma_entries_depth_bound};
use crate::bencode::order::bytes_lt;
use crate::bencode::value::{
    entries_view, insert_entry, keys_below, lemma_insert_above, lemma_lookup_after_insert,
    value_depth, value_wf, Bencode, BencodeValue, Entries,
};
use crate::util::convert::{bytes_equal, copy_bytes};
use vstd::prelude::*;

verus! {

/// The id of the handshake among the messages of extensions.
pub const EXTENDED_MESSAGE_HANDSHAKE_ID: u8 = 0;

/// Key of the dictionary from names to ids.
pub const ID_MAP_KEY: &'static str = "m";

/// Why the body of an extension message is no handshake.
#[derive(Copy, Clone, Debug, PartialEq, Eq, Structural)]
pub enum HandshakeError {
    /// The body is not bencode.
    Bencode(BencodeParseError),
    /// The body is no dictionary, or has no dictionary under `m`.
    NoIdMap,
}

/// The names and ids of the entries `m`: those whose value is an integer
/// from 0 to 255, in order.
pub open spec fn id_pairs(m: Entries) -> Seq<(Seq<u8>, u8)>
    decreases m.len(),
{
    if m.len() == 0 {
        Seq::empty()
    } else {
        let before = id_pairs(m.drop_last());
        match m.last().1 {
            BencodeValue::Int(id) => if 0 <= id <= 255 {
                before.push((m.last().0, id as u8))
            } else {
                before
            },
            _ => before,
        }
    }
}

/// The names and ids that the body `payload` of a handshake tells.
pub open spec fn handshake_of(payload: Seq<u8>) -> Result<Seq<(Seq<u8>, u8)>, HandshakeError> {
    match parse_whole(payload, MAX_DEPTH as nat) {
        Err(e) => Err(HandshakeError::Bencode(e)),
        Ok(root) => match dict_at(root, key_of(ID_MAP_KEY)) {
            Err(_) => Err(HandshakeError::NoIdMap),
            Ok(m) => Ok(id_pairs(m)),
        },
    }
}

/// The id of the first pair of `pairs` with the name `name`.
pub open spec fn id_of(pairs: Seq<(Seq<u8>, u8)>, name: Seq<u8>) -> Option<u8>
    decreases pairs.len(),
{
    if pairs.len() == 0 {
        None
    } else if pairs[0].0 == name {
        Some(pairs[0].1)
    } else {
        id_of(pairs.drop_first(), name)
    }
}

/// The name of the first pair of `pairs` with the id `id`.
pub open spec fn name_of(pairs: Seq<(Seq<u8>, u8)>, id: u8) -> Option<Seq<u8>>
    decreases pairs.len(),
{
    if pairs.len() == 0 {
        None
    } else if pairs[0].1 == id {
        Some(pairs[0].0)
    } else {
        name_of(pairs.drop_first(), id)
    }
}

/// The names and ids of stored pairs.
pub open spec fn pairs_view(pairs: Seq<(Vec<u8>, u8)>) -> Seq<(Seq<u8>, u8)> {
    Seq::new(pairs.len(), |i: int| (pairs[i].0@, pairs[i].1))
}

/// The dictionary under `m` that tells the pairs `pairs`, stored one after
/// the other, so that a later pair replaces an earlier one of its name.
pub open spec fn id_map_entries(pairs: Seq<(Seq<u8>, u8)>) -> Entries
    decreases pairs.len(),
{
    if pairs.len() == 0 {
        Seq::empty()
    } else {
        insert_entry(
            id_map_entries(pairs.drop_last()),
            pairs.last().0,
            BencodeValue::Int(pairs.last().1 as i64),
        )
    }
}

/// A handshake of the extension protocol: the names of extensions and their
/// ids.
#[derive(Clone, Debug, PartialEq, Eq)]
pub struct ExtendedMessage {
    pub id_map: Vec<(Vec<u8>, u8)>,
}

impl View for ExtendedMessage {
    type V = Seq<(Seq<u8>, u8)>;

    open spec fn view(&self) -> Seq<(Seq<u8>, u8)> {
        pairs_view(self.id_map@)
    }
}

impl ExtendedMessage {
    /// The dictionary that the handshake is on the wire.
    pub open spec fn value(&self) -> BencodeValue {
        BencodeValue::Dict(
            insert_entry(
                Seq::empty(),
                key_of(ID_MAP_KEY),
                BencodeValue::Dict(id_map_entries(self@)),
            ),
        )
    }

    /// A handshake without extensions.
    pub fn new() -> (r: ExtendedMessage)
        ensures
            r@ == Seq::<(Seq<u8>, u8)>::empty(),
    {
        let r = ExtendedMessage { id_map: Vec::new() };
        assert(r@ =~= Seq::<(Seq<u8>, u8)>::empty());
        r
    }

    /// Adds the extension `name` with the id `id`.
    pub fn insert(&mut self, name: &[u8], id: u8)
        ensures
            final(self)@ == old(self)@.push((name@, id)),
    {
        let ghost before = self@;
        self.id_map.push((copy_bytes(name), id));
        assert(self@ =~= before.push((name@, id)));
    }

    /// The id of the extension `name`: that of the first pair of this name.
    pub fn query_id(&self, name: &[u8]) -> (r: Option<u8>)
        ensures
            r == id_of(self@, name@),
    {
        let ghost pairs = self@;
        let mut i: usize = 0;
        assert(pairs.skip(0) =~= pairs);
        while i < self.id_map.len()
            invariant
                i <= self.id_map.len(),
                pairs == self@,
                id_of(pairs, name@) == id_of(pairs.skip(i as int), name@),
            decreases self.id_map.len() - i,
        {
            proof {
                assert(pairs.skip(i as int)[0] == pairs[i as int]);
                assert(pairs.skip(i as int).drop_first() =~= pairs.skip(i + 1));
            }
            if bytes_equal(self.id_map[i].0.as_slice(), name) {
                return Some(self.id_map[i].1);
            }
            i += 1;
        }
        None
    }

    /// The name of the extension with the id `id`: that of the first pair of
    /// this id.
    pub fn query_name(&self, id: u8) -> (r: Option<&[u8]>)
        ensures
            r is Some <==> name_of(self@, id) is Some,
            r matches Some(name) ==> name_of(self@, id) == Some(name@),
    {
        let ghost pairs = self@;
        let mut i: usize = 0;
        assert(pairs.skip(0) =~= pairs);
        while i < self.id_map.len()
            invariant
                i <= self.id_map.len(),
                pairs == self@,
                name_of(pairs, id) == name_of(pairs.skip(i as int), id),
            decreases self.id_map.len() - i,
        {
            proof {
                assert(pairs.skip(i as int)[0] == pairs[i as int]);
                assert(pairs.skip(i as int).drop_first() =~= pairs.skip(i + 1));
            }
            if self.id_map[i].1 == id {
                return Some(self.id_map[i].0.as_slice());
            }
            i += 1;
        }
        None
    }

    /// Reads the handshake that the body `payload` of an extension message
    /// with the id 0 is.
    pub fn from_bytes(payload: &[u8]) -> (r: Result<ExtendedMessage, HandshakeError>)
        ensures
            match handshake_of(payload@) {
                Ok(pairs) => r matches Ok(found) && found@ == pairs,
                Err(e) => r == Err::<ExtendedMessage, HandshakeError>(e),
            },
    {
        let root = match Bencode::decode(payload) {
            Ok(root) => root,
            Err(e) => {
                return Err(HandshakeError::Bencode(e));
            },
        };
        let map = match lookup_and_convert_dict(&root, ID_MAP_KEY.as_bytes()) {
            Ok(map) => map,
            Err(_) => {
                return Err(HandshakeError::NoIdMap);
            },
        };
        let entries = match map.as_dict() {
            Some(entries) => entries,
            None => {
                return Err(HandshakeError::NoIdMap);
            },
        };
        let ghost m = entries_view(entries@);
        let mut id_map: Vec<(Vec<u8>, u8)> = Vec::new();
        let mut i: usize = 0;
        proof {
            assert(m.subrange(0, 0) =~= Seq::<(Seq<u8>, BencodeValue)>::empty());
            assert(pairs_view(id_map@) =~= Seq::<(Seq<u8>, u8)>::empty());
        }
        while i < entries.len()
            invariant
                i <= entries.len(),
                m == entries_view(entries@),
                pairs_view(id_map@) == id_pairs(m.subrange(0, i as int)),
            decreases entries.len() - i,
        {
            proof {
                assert(m.subrange(0, i + 1).drop_last() =~= m.subrange(0, i as int));
                assert(m.subrange(0, i + 1).last() == m[i as int]);
            }
            match entries[i].1.as_int() {
                Some(id) => {
                    if 0 <= id && id <= 255 {
                        let ghost before = pairs_view(id_map@);
                        id_map.push((copy_bytes(entries[i].0.as_slice()), id as u8));
                        assert(pairs_view(id_map@) =~= before.push((m[i as int].0, id as u8)));
                    }
                },
                None => {},
            }
            i += 1;
        }
        assert(m.subrange(0, entries.len() as int) =~= m);
        Ok(ExtendedMessage { id_map })
    }

    /// The handshake as a bencode value, with its keys in ascending order.
    pub fn to_bencode(&self) -> (r: Bencode)
        ensures
            r@ == self.value(),
            r.wf(),
    {
        let ghost pairs = self@;
        let mut map = Bencode::new_dict();
        let mut i: usize = 0;
        proof {
            assert(pairs.subrange(0, 0) =~= Seq::<(Seq<u8>, u8)>::empty());
        }
        while i < self.id_map.len()
            invariant
                i <= self.id_map.len(),
                pairs == self@,
                map.wf(),
                map@ == BencodeValue::Dict(id_map_entries(pairs.subrange(0, i as int))),
            decreases self.id_map.len() - i,
        {
            proof {
                assert(pairs.subrange(0, i + 1).drop_last() =~= pairs.subrange(0, i as int));
                assert(pairs.subrange(0, i + 1).last() == pairs[i as int]);
            }
            map.insert(
                copy_bytes(self.id_map[i].0.as_slice()),
                Bencode::new_int(self.id_map[i].1 as i64),
            );
            i += 1;
        }
        assert(pairs.subrange(0, self.id_map.len() as int) =~= pairs);
        let mut root = Bencode::new_dict();
        root.insert(crate::bencode::text::key_bytes(ID_MAP_KEY), map);
        root
    }

    /// The body of the handshake on the wire.
    pub fn encode(&self) -> (r: Vec<u8>)
        ensures
            r@ == encode_value(self.value()),
    {
        self.to_bencode().encode()
    }
}

/// The entries that tell the pairs `pairs`, one for one.
pub open spec fn pair_entries(pairs: Seq<(Seq<u8>, u8)>) -> Entries {
    Seq::new(pairs.len(), |i: int| (pairs[i].0, BencodeValue::Int(pairs[i].1 as i64)))
}

/// Whether the names of `pairs` ascend strictly, so that none occurs twice.
pub open spec fn names_ascending(pairs: Seq<(Seq<u8>, u8)>) -> bool {
    forall|i: int, j: int|
        0 <= i < j < pairs.len() ==> bytes_lt(#[trigger] pairs[i].0, #[trigger] pairs[j].0)
}

/// Pairs whose names ascend are stored as they stand.
pub proof fn lemma_id_map_entries(pairs: Seq<(Seq<u8>, u8)>)
    requires
        names_ascending(pairs),
    ensures
        id_map_entries(pairs) == pair_entries(pairs),
    decreases pairs.len(),
{
    if pairs.len() == 0 {
        assert(id_map_entries(pairs) =~= pair_entries(pairs));
    } else {
        let init = pairs.drop_last();
        assert forall|i: int, j: int| 0 <= i < j < init.len() implies bytes_lt(
            #[trigger] init[i].0,
            #[trigger] init[j].0,
        ) by {
            assert(init[i] == pairs[i]);
            assert(init[j] == pairs[j]);
        }
        lemma_id_map_entries(init);
        let stored = pair_entries(init);
        assert(keys_below(stored, pairs.last().0)) by {
            assert forall|i: int| 0 <= i < stored.len() implies bytes_lt(
                (#[trigger] stored[i]).0,
                pairs.last().0,
            ) by {
                assert(stored[i].0 == pairs[i].0);
                assert(bytes_lt(pairs[i].0, pairs[pairs.len() - 1].0));
            }
        }
        lemma_insert_above(stored, pairs.last().0, BencodeValue::Int(pairs.last().1 as i64));
        assert(stored.push((pairs.last().0, BencodeValue::Int(pairs.last().1 as i64)))
            =~= pair_entries(pairs));
    }
}

/// The entries of pairs tell the pairs.
pub proof fn lemma_id_pairs(pairs: Seq<(Seq<u8>, u8)>)
    ensures
        id_pairs(pair_entries(pairs)) == pairs,
    decreases pairs.len(),
{
    let m = pair_entries(pairs);
    if pairs.len() == 0 {
        assert(id_pairs(m) =~= pairs);
    } else {
        lemma_id_pairs(pairs.drop_last());
        assert(m.drop_last() =~= pair_entries(pairs.drop_last()));
        assert(m.last() == (pairs.last().0, BencodeValue::Int(pairs.last().1 as i64)));
        assert(pairs.drop_last().push(pairs.last()) =~= pairs);
    }
}

/// A handshake whose names ascend, written and read again, tells the same
/// pairs.
pub proof fn lemma_handshake_round_trip(message: ExtendedMessage)
    requires
        names_ascending(message@),
    ensures
        value_wf(message.value()),
        handshake_of(encode_value(message.value())) == Ok::<Seq<(Seq<u8>, u8)>, HandshakeError>(
            message@,
        ),
{
    let pairs = message@;
    let m = pair_entries(pairs);
    lemma_id_map_entries(pairs);
    lemma_id_pairs(pairs);
    assert(value_wf(BencodeValue::Dict(m))) by {
        assert forall|i: int, j: int| 0 <= i < j < m.len() implies bytes_lt(
            #[trigger] m[i].0,
            #[trigger] m[j].0,
        ) by {
            assert(m[i].0 == pairs[i].0);
            assert(m[j].0 == pairs[j].0);
        }
        assert forall|i: int| 0 <= i < m.len() implies value_wf((#[trigger] m[i]).1) by {}
    }
    assert forall|i: int| 0 <= i < m.len() implies value_depth((#[trigger] m[i]).1) <= 0 by {}
    lemma_entries_depth_bound(m, 0);
    let e0 = Seq::<(Seq<u8>, BencodeValue)>::empty();
    let root = insert_entry(e0, key_of(ID_MAP_KEY), BencodeValue::Dict(m));
    lemma_insert_above(e0, key_of(ID_MAP_KEY), BencodeValue::Dict(m));
    lemma_lookup_after_insert(e0, key_of(ID_MAP_KEY), BencodeValue::Dict(m), key_of(ID_MAP_KEY));
    assert(root =~= seq![(key_of(ID_MAP_KEY), BencodeValue::Dict(m))]);
    assert forall|i: int| 0 <= i < root.len() implies value_wf((#[trigger] root[i]).1)
        && value_depth(root[i].1) <= 1 by {}
    lemma_entries_depth_bound(root, 1);
    lemma_decode_encode(message.value(), MAX_DEPTH as nat);
}

} // verus!
