//! The canonical encoding of bencode values.

use crate::bencode::value::{entries_view, items_view, Bencode, BencodeValue, Entries};
use crate::util::convert::extend_bytes;
use vstd::prelude::*;

verus! {

/// `i`: opens an integer.
pub const INT_START: u8 = 0x69;

/// `l`: opens a list.
pub const LIST_START: u8 = 0x6c;

/// `d`: opens a dictionary.
pub const DICT_START: u8 = 0x64;

/// `e`: closes an integer, a list or a dictionary.
pub const BEN_END: u8 = 0x65;

/// `:`: stands between the length of a byte string and its bytes.
pub const BYTE_LEN_END: u8 = 0x3a;

/// `-`: the sign of a negative integer.
pub const MINUS: u8 = 0x2d;

/// `0`: the first of the ten digits.
pub const DIGIT_ZERO: u8 = 0x30;

/// The decimal digits of `n`, without leading zeros; `0` for zero.
pub open spec fn decimal(n: nat) -> Seq<u8>
    decreases n,
{
    if n < 10 {
        seq![(DIGIT_ZERO + n) as u8]
    } else {
        decimal(n / 10).push((DIGIT_ZERO + n % 10) as u8)
    }
}

/// The decimal digits of `i`, after a minus sign where it is negative.
pub open spec fn signed_decimal(i: int) -> Seq<u8> {
    if i < 0 {
        seq![MINUS] + decimal((-i) as nat)
    } else {
        decimal(i as nat)
    }
}

/// The canonical encoding of `v`: an integer as `i<decimal>e`, a byte string
/// as `<length>:<bytes>`, a list as `l<items>e`, a dictionary as
/// `d<key><value>...e` with the entries in the order in which `v` holds them.
pub open spec fn encode_value(v: BencodeValue) -> Seq<u8>
    decreases v, 1nat,
{
    match v {
        BencodeValue::Int(i) => seq![INT_START] + signed_decimal(i as int) + seq![BEN_END],
        BencodeValue::Bytes(b) => encode_bytes(b),
        BencodeValue::List(l) => seq![LIST_START] + encode_items(l) + seq![BEN_END],
        BencodeValue::Dict(d) => seq![DICT_START] + encode_entries(d) + seq![BEN_END],
    }
}

/// The encoding of a byte string: its length in decimal, a colon, the bytes.
pub open spec fn encode_bytes(b: Seq<u8>) -> Seq<u8> {
    decimal(b.len()) + seq![BYTE_LEN_END] + b
}

/// The encodings of the values of `l`, one after the other.
pub open spec fn encode_items(l: Seq<BencodeValue>) -> Seq<u8>
    decreases l, 0nat,
{
    if l.len() == 0 {
        Seq::empty()
    } else {
        encode_value(l[0]) + encode_items(l.drop_first())
    }
}

/// The encodings of the entries of `d`, each a key and its value, one after
/// the other.
pub open spec fn encode_entries(d: Entries) -> Seq<u8>
    decreases d, 0nat,
{
    if d.len() == 0 {
        Seq::empty()
    } else {
        encode_bytes(d[0].0) + encode_value(d[0].1) + encode_entries(d.drop_first())
    }
}

/// The encoding of a list that grew by one value grows by that value's
/// encoding.
pub proof fn lemma_encode_items_push(l: Seq<BencodeValue>, v: BencodeValue)
    ensures
        encode_items(l.push(v)) == encode_items(l) + encode_value(v),
    decreases l.len(),
{
    let lp = l.push(v);
    if l.len() == 0 {
        assert(lp.drop_first() =~= Seq::<BencodeValue>::empty());
        assert(encode_items(lp.drop_first()) =~= Seq::<u8>::empty());
        assert(encode_items(lp) =~= encode_value(v));
        assert(encode_items(l) + encode_value(v) =~= encode_value(v));
    } else {
        lemma_encode_items_push(l.drop_first(), v);
        assert(lp.drop_first() =~= l.drop_first().push(v));
        assert(encode_items(lp) =~= encode_items(l) + encode_value(v));
    }
}

/// The encoding of entries that grew by one at the end grows by that entry's
/// encoding.
pub proof fn lemma_encode_entries_push(d: Entries, k: Seq<u8>, v: BencodeValue)
    ensures
        encode_entries(d.push((k, v))) == encode_entries(d) + encode_bytes(k) + encode_value(v),
    decreases d.len(),
{
    let dp = d.push((k, v));
    if d.len() == 0 {
        assert(dp.drop_first() =~= Seq::<(Seq<u8>, BencodeValue)>::empty());
        assert(encode_entries(dp.drop_first()) =~= Seq::<u8>::empty());
        assert(encode_entries(dp) =~= encode_bytes(k) + encode_value(v));
        assert(encode_entries(d) + encode_bytes(k) + encode_value(v) =~= encode_bytes(k)
            + encode_value(v));
    } else {
        lemma_encode_entries_push(d.drop_first(), k, v);
        assert(dp.drop_first() =~= d.drop_first().push((k, v)));
        assert(encode_entries(dp) =~= encode_entries(d) + encode_bytes(k) + encode_value(v));
    }
}

/// Appends the decimal digits of `n`.
pub fn write_decimal(out: &mut Vec<u8>, n: u64)
    ensures
        final(out)@ == old(out)@ + decimal(n as nat),
    decreases n,
{
    if n >= 10 {
        write_decimal(out, n / 10);
    }
    let digit: u8 = (n % 10) as u8;
    out.push(DIGIT_ZERO + digit);
    assert(out@ =~= old(out)@ + decimal(n as nat));
}

/// Appends the decimal digits of `i`, after a minus sign where it is negative.
pub fn write_signed_decimal(out: &mut Vec<u8>, i: i64)
    ensures
        final(out)@ == old(out)@ + signed_decimal(i as int),
{
    if i < 0 {
        out.push(MINUS);
        let magnitude: u64 = (-(i + 1)) as u64 + 1;
        write_decimal(out, magnitude);
        assert(out@ =~= old(out)@ + signed_decimal(i as int));
    } else {
        write_decimal(out, i as u64);
    }
}

/// Appends the encoding of the byte string `b`.
pub fn write_bytes(out: &mut Vec<u8>, b: &[u8])
    ensures
        final(out)@ == old(out)@ + encode_bytes(b@),
{
    write_decimal(out, b.len() as u64);
    out.push(BYTE_LEN_END);
    extend_bytes(out, b);
    assert(out@ =~= old(out)@ + encode_bytes(b@));
}

impl Bencode {
    /// Appends the canonical encoding of the value to `out`.
    pub fn encode_into(&self, out: &mut Vec<u8>)
        ensures
            final(out)@ == old(out)@ + encode_value(self@),
        decreases self,
    {
        match self {
            Bencode::Int(i) => {
                out.push(INT_START);
                write_signed_decimal(out, *i);
                out.push(BEN_END);
                assert(out@ =~= old(out)@ + encode_value(self@));
            },
            Bencode::Bytes(b) => {
                write_bytes(out, b.as_slice());
            },
            Bencode::List(l) => {
                out.push(LIST_START);
                let ghost items = items_view(l@);
                let mut i: usize = 0;
                assert(items.subrange(0, 0) =~= Seq::<BencodeValue>::empty());
                while i < l.len()
                    invariant
                        i <= l.len(),
                        self is List,
                        self->List_0 == *l,
                        items == items_view(l@),
                        out@ == old(out)@ + seq![LIST_START] + encode_items(
                            items.subrange(0, i as int),
                        ),
                    decreases l.len() - i,
                {
                    l[i].encode_into(out);
                    proof {
                        lemma_encode_items_push(items.subrange(0, i as int), items[i as int]);
                        assert(items.subrange(0, i + 1) =~= items.subrange(0, i as int).push(
                            items[i as int],
                        ));
                    }
                    i += 1;
                }
                out.push(BEN_END);
                assert(items.subrange(0, l.len() as int) =~= items);
                assert(out@ =~= old(out)@ + encode_value(self@));
            },
            Bencode::Dict(d) => {
                out.push(DICT_START);
                let ghost entries = entries_view(d@);
                let mut i: usize = 0;
                assert(entries.subrange(0, 0) =~= Seq::<(Seq<u8>, BencodeValue)>::empty());
                while i < d.len()
                    invariant
                        i <= d.len(),
                        self is Dict,
                        self->Dict_0 == *d,
                        entries == entries_view(d@),
                        out@ == old(out)@ + seq![DICT_START] + encode_entries(
                            entries.subrange(0, i as int),
                        ),
                    decreases d.len() - i,
                {
                    write_bytes(out, d[i].0.as_slice());
                    d[i].1.encode_into(out);
                    proof {
                        lemma_encode_entries_push(
                            entries.subrange(0, i as int),
                            entries[i as int].0,
                            entries[i as int].1,
                        );
                        assert(entries.subrange(0, i + 1) =~= entries.subrange(0, i as int).push(
                            entries[i as int],
                        ));
                    }
                    i += 1;
                }
                out.push(BEN_END);
                assert(entries.subrange(0, d.len() as int) =~= entries);
                assert(out@ =~= old(out)@ + encode_value(self@));
            },
        }
    }

    /// The canonical encoding of the value.
    pub fn encode(&self) -> (r: Vec<u8>)
        ensures
            r@ == encode_value(self@),
    {
        let mut out: Vec<u8> = Vec::new();
        self.encode_into(&mut out);
        out
    }
}

} // verus!
