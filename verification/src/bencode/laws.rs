//! What holds between writing and reading bencode.
//!
//! Reading what was written gives the value back; whatever is read has its
//! dictionaries in the order of their keys, so that writing it again gives
//! the canonical encoding; and an input that was canonical is written again
//! byte for byte.

use crate::bencode::decode::{
    decimal_value, digits_end, is_digit, items_wf, parse_byte_string, parse_entries,
    parse_integer, parse_items, parse_number, parse_value, parse_whole, BencodeParseError,
};
use crate::bencode::encode::{
    decimal,
    encode_bytes,
    encode_entries,
    encode_items,
    encode_value,
    BEN_END,
    BYTE_LEN_END,
    DICT_START,
    DIGIT_ZERO,
    INT_START,
    LIST_START,
    MINUS,
};
use crate::bencode::order::bytes_lt;
use crate::bencode::value::{
    entries_depth,
    insert_entry,
    items_depth,
    keys_ascending,
    keys_below,
    lemma_insert_above,
    lemma_insert_members,
    lemma_insert_wf,
    lemma_lookup_below,
    value_depth,
    value_wf,
    BencodeValue,
    Entries,
};
use vstd::prelude::*;

verus! {

/// The decimal digits of a number are digits, one at least, with a zero in
/// front only where the number is zero; and they denote the number.
pub proof fn lemma_decimal(n: nat)
    ensures
        decimal(n).len() >= 1,
        forall|i: int| 0 <= i < decimal(n).len() ==> is_digit(#[trigger] decimal(n)[i]),
        decimal(n)[0] == DIGIT_ZERO ==> n == 0 && decimal(n).len() == 1,
        decimal_value(decimal(n)) == n,
    decreases n,
{
    let d = decimal(n);
    if n < 10 {
        assert(d.drop_last() =~= Seq::<u8>::empty());
        assert(decimal_value(d.drop_last()) == 0);
    } else {
        lemma_decimal(n / 10);
        let front = decimal(n / 10);
        assert(d.drop_last() =~= front);
        assert(d[0] == front[0]);
        assert forall|i: int| 0 <= i < d.len() implies is_digit(#[trigger] d[i]) by {
            if i < front.len() {
                assert(d[i] == front[i]);
            }
        }
    }
}

/// A run of `k` digits from `pos` that ends at a byte that is no digit, or at
/// the end of the input, ends there for `digits_end`.
pub proof fn lemma_digits_end(s: Seq<u8>, pos: nat, k: nat)
    requires
        pos + k <= s.len(),
        forall|i: int| pos <= i < pos + k ==> is_digit(#[trigger] s[i]),
        pos + k == s.len() || !is_digit(s[(pos + k) as int]),
    ensures
        digits_end(s, pos) == pos + k,
    decreases k,
{
    if k > 0 {
        assert(is_digit(s[pos as int]));
        lemma_digits_end(s, pos + 1, (k - 1) as nat);
    }
}

/// The digits of `n` at `pos`, followed by a byte that is no digit, read as
/// `n`.
pub proof fn lemma_parse_number(s: Seq<u8>, pos: nat, n: nat)
    requires
        pos + decimal(n).len() < s.len(),
        s.subrange(pos as int, (pos + decimal(n).len()) as int) == decimal(n),
        !is_digit(s[(pos + decimal(n).len()) as int]),
    ensures
        parse_number(s, pos) == Ok::<(nat, nat), BencodeParseError>((n, pos + decimal(n).len())),
{
    let d = decimal(n);
    lemma_decimal(n);
    assert forall|i: int| pos <= i < pos + d.len() implies is_digit(#[trigger] s[i]) by {
        assert(s[i] == s.subrange(pos as int, (pos + d.len()) as int)[i - pos]);
    }
    lemma_digits_end(s, pos, d.len());
    assert(s[pos as int] == s.subrange(pos as int, (pos + d.len()) as int)[0]);
}

/// The encoding of a byte string at `pos` reads as the byte string.
pub proof fn lemma_parse_byte_string(s: Seq<u8>, pos: nat, b: Seq<u8>)
    requires
        pos + encode_bytes(b).len() <= s.len(),
        s.subrange(pos as int, (pos + encode_bytes(b).len()) as int) == encode_bytes(b),
    ensures
        parse_byte_string(s, pos) == Ok::<(Seq<u8>, nat), BencodeParseError>(
            (b, pos + encode_bytes(b).len()),
        ),
        is_digit(s[pos as int]),
        encode_bytes(b).len() >= 2,
{
    let d = decimal(b.len());
    let e = encode_bytes(b);
    lemma_decimal(b.len());
    assert(e.len() == d.len() + 1 + b.len());
    assert forall|i: int| 0 <= i < e.len() implies s[(pos + i) as int] == e[i] by {
        assert(s.subrange(pos as int, (pos + e.len()) as int)[i] == e[i]);
    }
    assert(s.subrange(pos as int, (pos + d.len()) as int) =~= d) by {
        assert forall|i: int| 0 <= i < d.len() implies s.subrange(pos as int, (pos + d.len()) as int)[i]
            == d[i] by {
            assert(s[(pos + i) as int] == e[i]);
        }
    }
    assert(s[(pos + d.len()) as int] == e[d.len() as int]);
    assert(e[d.len() as int] == BYTE_LEN_END);
    lemma_parse_number(s, pos, b.len());
    assert(s.subrange((pos + d.len() + 1) as int, (pos + d.len() + 1 + b.len()) as int) =~= b) by {
        assert forall|i: int| 0 <= i < b.len() implies s[(pos + d.len() + 1 + i) as int] == b[i] by {
            assert(s[(pos + (d.len() + 1 + i)) as int] == e[d.len() + 1 + i]);
        }
    }
    assert(s[pos as int] == e[0]);
    assert(e[0] == d[0]);
}

/// The encoding of an integer at `pos` reads as the integer.
pub proof fn lemma_parse_integer(s: Seq<u8>, pos: nat, i: i64)
    requires
        pos + encode_value(BencodeValue::Int(i)).len() <= s.len(),
        s.subrange(pos as int, (pos + encode_value(BencodeValue::Int(i)).len()) as int) == encode_value(
            BencodeValue::Int(i),
        ),
    ensures
        parse_integer(s, pos) == Ok::<(i64, nat), BencodeParseError>(
            (i, pos + encode_value(BencodeValue::Int(i)).len()),
        ),
        s[pos as int] == INT_START,
{
    let e = encode_value(BencodeValue::Int(i));
    let magnitude: nat = if i < 0 {
        (-(i as int)) as nat
    } else {
        i as nat
    };
    let d = decimal(magnitude);
    lemma_decimal(magnitude);
    assert forall|j: int| 0 <= j < e.len() implies s[(pos + j) as int] == e[j] by {
        assert(s.subrange(pos as int, (pos + e.len()) as int)[j] == e[j]);
    }
    assert(s[pos as int] == e[0]);
    if i < 0 {
        assert(e.len() == d.len() + 3);
        assert(s[(pos + 1) as int] == e[1]);
        assert(e[1] == MINUS);
        let start: nat = pos + 2;
        assert(s.subrange(start as int, (start + d.len()) as int) =~= d) by {
            let window = s.subrange(start as int, (start + d.len()) as int);
            assert forall|j: int| 0 <= j < d.len() implies window[j] == d[j] by {
                assert(s[(pos + (2 + j)) as int] == e[2 + j]);
            }
        }
        assert(s[(start + d.len()) as int] == e[2 + d.len() as int]);
        assert(e[2 + d.len() as int] == BEN_END);
        lemma_parse_number(s, start, magnitude);
    } else {
        assert(e.len() == d.len() + 2);
        assert(s[(pos + 1) as int] == e[1]);
        assert(e[1] == d[0]);
        let start: nat = pos + 1;
        assert(s.subrange(start as int, (start + d.len()) as int) =~= d) by {
            let window = s.subrange(start as int, (start + d.len()) as int);
            assert forall|j: int| 0 <= j < d.len() implies window[j] == d[j] by {
                assert(s[(pos + (1 + j)) as int] == e[1 + j]);
            }
        }
        assert(s[(start + d.len()) as int] == e[1 + d.len() as int]);
        assert(e[1 + d.len() as int] == BEN_END);
        lemma_parse_number(s, start, magnitude);
    }
}

/// No value of a list is nested more deeply than `items_depth` says.
pub proof fn lemma_items_depth(l: Seq<BencodeValue>, i: int)
    requires
        0 <= i < l.len(),
    ensures
        value_depth(l[i]) <= items_depth(l),
    decreases l.len(),
{
    if i < l.len() - 1 {
        lemma_items_depth(l.drop_last(), i);
    }
}

/// No value of a dictionary is nested more deeply than `entries_depth` says.
pub proof fn lemma_entries_depth(d: Entries, i: int)
    requires
        0 <= i < d.len(),
    ensures
        value_depth(d[i].1) <= entries_depth(d),
    decreases d.len(),
{
    if i < d.len() - 1 {
        lemma_entries_depth(d.drop_last(), i);
    }
}

/// A list whose values are nested at most `bound` deep has at most that
/// depth.
pub proof fn lemma_items_depth_bound(l: Seq<BencodeValue>, bound: nat)
    requires
        forall|i: int| 0 <= i < l.len() ==> value_depth(#[trigger] l[i]) <= bound,
    ensures
        items_depth(l) <= bound,
    decreases l.len(),
{
    if l.len() > 0 {
        assert forall|i: int| 0 <= i < l.drop_last().len() implies value_depth(
            #[trigger] l.drop_last()[i],
        ) <= bound by {
            assert(l.drop_last()[i] == l[i]);
        }
        lemma_items_depth_bound(l.drop_last(), bound);
        assert(value_depth(l[l.len() - 1]) <= bound);
    }
}

/// Entries whose values are nested at most `bound` deep have at most that
/// depth.
pub proof fn lemma_entries_depth_bound(d: Entries, bound: nat)
    requires
        forall|i: int| 0 <= i < d.len() ==> value_depth((#[trigger] d[i]).1) <= bound,
    ensures
        entries_depth(d) <= bound,
    decreases d.len(),
{
    if d.len() > 0 {
        assert forall|i: int| 0 <= i < d.drop_last().len() implies value_depth(
            (#[trigger] d.drop_last()[i]).1,
        ) <= bound by {
            assert(d.drop_last()[i] == d[i]);
        }
        lemma_entries_depth_bound(d.drop_last(), bound);
        assert(value_depth(d[d.len() - 1].1) <= bound);
    }
}

/// The encoding of a value at `pos` reads as the value, whatever follows it,
/// provided its dictionaries have ascending keys and it is not nested more
/// deeply than `depth`.
pub proof fn lemma_parse_value(s: Seq<u8>, pos: nat, v: BencodeValue, depth: nat)
    requires
        value_wf(v),
        value_depth(v) <= depth,
        pos + encode_value(v).len() <= s.len(),
        s.subrange(pos as int, (pos + encode_value(v).len()) as int) == encode_value(v),
    ensures
        parse_value(s, pos, depth) == Ok::<(BencodeValue, nat), BencodeParseError>(
            (v, pos + encode_value(v).len()),
        ),
        encode_value(v).len() >= 2,
        s[pos as int] != BEN_END,
    decreases v, 1nat,
{
    let e = encode_value(v);
    match v {
        BencodeValue::Int(i) => {
            lemma_parse_integer(s, pos, i);
            lemma_decimal(
                if i < 0 {
                    (-(i as int)) as nat
                } else {
                    i as nat
                },
            );
        },
        BencodeValue::Bytes(b) => {
            lemma_parse_byte_string(s, pos, b);
        },
        BencodeValue::List(l) => {
            let inner = encode_items(l);
            assert(e.len() == inner.len() + 2);
            assert forall|j: int| 0 <= j < e.len() implies s[(pos + j) as int] == e[j] by {
                assert(s.subrange(pos as int, (pos + e.len()) as int)[j] == e[j]);
            }
            assert(s[pos as int] == e[0]);
            assert(s.subrange((pos + 1) as int, (pos + 1 + inner.len()) as int) =~= inner) by {
                assert forall|j: int| 0 <= j < inner.len() implies s[(pos + 1 + j) as int] == inner[j] by {
                    assert(s[(pos + (1 + j)) as int] == e[1 + j]);
                }
            }
            assert(s[(pos + 1 + inner.len()) as int] == e[1 + inner.len() as int]);
            assert forall|j: int| 0 <= j < l.len() implies value_depth(#[trigger] l[j]) <= depth
                - 1 by {
                lemma_items_depth(l, j);
            }
            lemma_parse_items(s, pos + 1, l, (depth - 1) as nat, Seq::empty());
            assert(Seq::<BencodeValue>::empty() + l =~= l);
        },
        BencodeValue::Dict(d) => {
            let inner = encode_entries(d);
            assert(e.len() == inner.len() + 2);
            assert forall|j: int| 0 <= j < e.len() implies s[(pos + j) as int] == e[j] by {
                assert(s.subrange(pos as int, (pos + e.len()) as int)[j] == e[j]);
            }
            assert(s[pos as int] == e[0]);
            assert(s.subrange((pos + 1) as int, (pos + 1 + inner.len()) as int) =~= inner) by {
                assert forall|j: int| 0 <= j < inner.len() implies s[(pos + 1 + j) as int] == inner[j] by {
                    assert(s[(pos + (1 + j)) as int] == e[1 + j]);
                }
            }
            assert(s[(pos + 1 + inner.len()) as int] == e[1 + inner.len() as int]);
            assert forall|j: int| 0 <= j < d.len() implies value_depth((#[trigger] d[j]).1)
                <= depth - 1 by {
                lemma_entries_depth(d, j);
            }
            assert(Seq::<(Seq<u8>, BencodeValue)>::empty() + d =~= d);
            lemma_parse_entries(s, pos + 1, d, (depth - 1) as nat, Seq::empty());
        },
    }
}

/// The encodings of the values of a list at `pos`, followed by `e`, read as
/// those values behind the ones read before.
pub proof fn lemma_parse_items(
    s: Seq<u8>,
    pos: nat,
    l: Seq<BencodeValue>,
    depth: nat,
    acc: Seq<BencodeValue>,
)
    requires
        items_wf(l),
        forall|i: int| 0 <= i < l.len() ==> value_depth(#[trigger] l[i]) <= depth,
        pos + encode_items(l).len() < s.len(),
        s.subrange(pos as int, (pos + encode_items(l).len()) as int) == encode_items(l),
        s[(pos + encode_items(l).len()) as int] == BEN_END,
    ensures
        parse_items(s, pos, depth, acc) == Ok::<(Seq<BencodeValue>, nat), BencodeParseError>(
            (acc + l, pos + encode_items(l).len() + 1),
        ),
    decreases l, 0nat,
{
    let inner = encode_items(l);
    if l.len() == 0 {
        assert(acc + l =~= acc);
    } else {
        let first = l[0];
        let rest = l.drop_first();
        let e0 = encode_value(first);
        let er = encode_items(rest);
        assert(inner == e0 + er);
        assert forall|j: int| 0 <= j < inner.len() implies s[(pos + j) as int] == inner[j] by {
            assert(s.subrange(pos as int, (pos + inner.len()) as int)[j] == inner[j]);
        }
        assert(s.subrange(pos as int, (pos + e0.len()) as int) =~= e0) by {
            assert forall|j: int| 0 <= j < e0.len() implies s[(pos + j) as int] == e0[j] by {
                assert(inner[j] == e0[j]);
            }
        }
        assert(value_wf(first));
        lemma_parse_value(s, pos, first, depth);
        let next: nat = pos + e0.len();
        assert(s.subrange(next as int, (next + er.len()) as int) =~= er) by {
            assert forall|j: int| 0 <= j < er.len() implies s[(next + j) as int] == er[j] by {
                assert(s[(pos + (e0.len() + j)) as int] == inner[e0.len() + j]);
            }
        }
        assert forall|i: int| 0 <= i < rest.len() implies value_wf(#[trigger] rest[i])
            && value_depth(rest[i]) <= depth by {
            assert(rest[i] == l[i + 1]);
        }
        lemma_parse_items(s, next, rest, depth, acc.push(first));
        assert(acc.push(first) + rest =~= acc + l);
    }
}

/// The encodings of the entries of a dictionary at `pos`, followed by `e`,
/// read as those entries behind the ones read before, where the keys of all
/// of them ascend.
pub proof fn lemma_parse_entries(s: Seq<u8>, pos: nat, d: Entries, depth: nat, acc: Entries)
    requires
        keys_ascending(acc + d),
        forall|i: int| 0 <= i < d.len() ==> value_wf((#[trigger] d[i]).1),
        forall|i: int| 0 <= i < d.len() ==> value_depth((#[trigger] d[i]).1) <= depth,
        pos + encode_entries(d).len() < s.len(),
        s.subrange(pos as int, (pos + encode_entries(d).len()) as int) == encode_entries(d),
        s[(pos + encode_entries(d).len()) as int] == BEN_END,
    ensures
        parse_entries(s, pos, depth, acc) == Ok::<(Entries, nat), BencodeParseError>(
            (acc + d, pos + encode_entries(d).len() + 1),
        ),
    decreases d, 0nat,
{
    let inner = encode_entries(d);
    if d.len() == 0 {
        assert(acc + d =~= acc);
    } else {
        let k = d[0].0;
        let v = d[0].1;
        let rest = d.drop_first();
        let ek = encode_bytes(k);
        let ev = encode_value(v);
        let er = encode_entries(rest);
        assert(inner == ek + ev + er);
        assert forall|j: int| 0 <= j < inner.len() implies s[(pos + j) as int] == inner[j] by {
            assert(s.subrange(pos as int, (pos + inner.len()) as int)[j] == inner[j]);
        }
        assert(s.subrange(pos as int, (pos + ek.len()) as int) =~= ek) by {
            assert forall|j: int| 0 <= j < ek.len() implies s[(pos + j) as int] == ek[j] by {
                assert(inner[j] == ek[j]);
            }
        }
        lemma_parse_byte_string(s, pos, k);
        let key_end: nat = pos + ek.len();
        assert(s.subrange(key_end as int, (key_end + ev.len()) as int) =~= ev) by {
            assert forall|j: int| 0 <= j < ev.len() implies s[(key_end + j) as int] == ev[j] by {
                assert(s[(pos + (ek.len() + j)) as int] == inner[ek.len() + j]);
            }
        }
        assert(value_wf(d[0].1));
        assert(value_depth(d[0].1) <= depth);
        lemma_parse_value(s, key_end, v, depth);
        let next: nat = key_end + ev.len();
        assert(s.subrange(next as int, (next + er.len()) as int) =~= er) by {
            assert forall|j: int| 0 <= j < er.len() implies s[(next + j) as int] == er[j] by {
                assert(s[(pos + (ek.len() + ev.len() + j)) as int] == inner[ek.len() + ev.len() + j]);
            }
        }
        assert(keys_below(acc, k)) by {
            assert forall|i: int| 0 <= i < acc.len() implies bytes_lt((#[trigger] acc[i]).0, k) by {
                assert((acc + d)[i] == acc[i]);
                assert((acc + d)[acc.len() as int] == d[0]);
            }
        }
        lemma_lookup_below(acc, k);
        lemma_insert_above(acc, k, v);
        assert(acc.push((k, v)) + rest =~= acc + d);
        assert forall|i: int| 0 <= i < rest.len() implies value_wf((#[trigger] rest[i]).1)
            && value_depth(rest[i].1) <= depth by {
            assert(rest[i] == d[i + 1]);
        }
        lemma_parse_entries(s, next, rest, depth, acc.push((k, v)));
    }
}

/// Reading the encoding of a value gives the value back, provided its
/// dictionaries have ascending keys and it is not nested more deeply than
/// `depth`.
pub proof fn lemma_decode_encode(v: BencodeValue, depth: nat)
    requires
        value_wf(v),
        value_depth(v) <= depth,
    ensures
        parse_whole(encode_value(v), depth) == Ok::<BencodeValue, BencodeParseError>(v),
{
    let s = encode_value(v);
    assert(s.subrange(0, s.len() as int) =~= s);
    lemma_parse_value(s, 0, v, depth);
}

/// Whatever is read has its dictionaries in ascending order of keys, is not
/// nested more deeply than allowed, and ends within the input behind where
/// it starts.
pub proof fn lemma_parsed_value_wf(s: Seq<u8>, pos: nat, depth: nat)
    requires
        parse_value(s, pos, depth) is Ok,
    ensures
        value_wf(parse_value(s, pos, depth)->Ok_0.0),
        value_depth(parse_value(s, pos, depth)->Ok_0.0) <= depth,
    decreases depth, s.len() - pos, 0nat,
{
    if s[pos as int] == INT_START {
    } else if is_digit(s[pos as int]) {
    } else if s[pos as int] == LIST_START {
        lemma_parsed_items_wf(s, pos + 1, (depth - 1) as nat, Seq::empty());
        let l = parse_items(s, pos + 1, (depth - 1) as nat, Seq::empty())->Ok_0.0;
        lemma_items_depth_bound(l, (depth - 1) as nat);
    } else if s[pos as int] == DICT_START {
        lemma_parsed_entries_wf(s, pos + 1, (depth - 1) as nat, Seq::empty());
        let d = parse_entries(s, pos + 1, (depth - 1) as nat, Seq::empty())->Ok_0.0;
        lemma_entries_depth_bound(d, (depth - 1) as nat);
    }
}

/// The items that are read are well-formed and within the depth, where those
/// read before are.
pub proof fn lemma_parsed_items_wf(s: Seq<u8>, pos: nat, depth: nat, acc: Seq<BencodeValue>)
    requires
        parse_items(s, pos, depth, acc) is Ok,
        items_wf(acc),
        forall|i: int| 0 <= i < acc.len() ==> value_depth(#[trigger] acc[i]) <= depth,
    ensures
        items_wf(parse_items(s, pos, depth, acc)->Ok_0.0),
        forall|i: int|
            0 <= i < parse_items(s, pos, depth, acc)->Ok_0.0.len() ==> value_depth(
                #[trigger] parse_items(s, pos, depth, acc)->Ok_0.0[i],
            ) <= depth,
    decreases depth, s.len() - pos, 1nat,
{
    if s[pos as int] == BEN_END {
    } else {
        lemma_parsed_value_wf(s, pos, depth);
        let (v, next) = parse_value(s, pos, depth)->Ok_0;
        let grown = acc.push(v);
        assert forall|i: int| 0 <= i < grown.len() implies value_wf(#[trigger] grown[i])
            && value_depth(grown[i]) <= depth by {
            if i < acc.len() {
                assert(grown[i] == acc[i]);
            }
        }
        lemma_parsed_items_wf(s, next, depth, grown);
    }
}

/// The entries that are read have ascending keys and values that are
/// well-formed and within the depth, where those read before have.
pub proof fn lemma_parsed_entries_wf(s: Seq<u8>, pos: nat, depth: nat, acc: Entries)
    requires
        parse_entries(s, pos, depth, acc) is Ok,
        value_wf(BencodeValue::Dict(acc)),
        forall|i: int| 0 <= i < acc.len() ==> value_depth((#[trigger] acc[i]).1) <= depth,
    ensures
        value_wf(BencodeValue::Dict(parse_entries(s, pos, depth, acc)->Ok_0.0)),
        forall|i: int|
            0 <= i < parse_entries(s, pos, depth, acc)->Ok_0.0.len() ==> value_depth(
                (#[trigger] parse_entries(s, pos, depth, acc)->Ok_0.0[i]).1,
            ) <= depth,
    decreases depth, s.len() - pos, 1nat,
{
    if s[pos as int] == BEN_END {
    } else {
        let (k, key_end) = parse_byte_string(s, pos)->Ok_0;
        lemma_parsed_value_wf(s, key_end, depth);
        let (v, next) = parse_value(s, key_end, depth)->Ok_0;
        let grown = insert_entry(acc, k, v);
        lemma_insert_wf(acc, k, v);
        lemma_insert_members(acc, k, v);
        assert forall|i: int| 0 <= i < grown.len() implies value_depth((#[trigger] grown[i]).1)
            <= depth by {
            if grown[i] != (k, v) {
                let j = choose|j: int| 0 <= j < acc.len() && acc[j] == grown[i];
                assert(value_depth(acc[j].1) <= depth);
            }
        }
        lemma_parsed_entries_wf(s, next, depth, grown);
    }
}

/// Writing again what was read gives the canonical encoding: the value that
/// was read has its keys in order, and its encoding reads as the same value.
pub proof fn lemma_reencode_is_canonical(s: Seq<u8>, depth: nat)
    requires
        parse_whole(s, depth) is Ok,
    ensures
        value_wf(parse_whole(s, depth)->Ok_0),
        parse_whole(encode_value(parse_whole(s, depth)->Ok_0), depth) == parse_whole(s, depth),
{
    lemma_parsed_value_wf(s, 0, depth);
    lemma_decode_encode(parse_whole(s, depth)->Ok_0, depth);
}

/// An input that is the canonical encoding of some value is written again
/// byte for byte after it was read, so that a hash of it stays what it was.
pub proof fn lemma_canonical_input_is_kept(v: BencodeValue, depth: nat)
    requires
        value_wf(v),
        value_depth(v) <= depth,
    ensures
        parse_whole(encode_value(v), depth) is Ok,
        encode_value(parse_whole(encode_value(v), depth)->Ok_0) == encode_value(v),
{
    lemma_decode_encode(v, depth);
}

} // verus!
