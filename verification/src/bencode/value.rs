//! Bencode values and their mathematical model.

use crate::bencode::order::{
    bytes_less, bytes_lt, lemma_lt_asymmetric, lemma_lt_irreflexive, lemma_lt_total,
    lemma_lt_transitive,
};
use crate::util::convert::bytes_equal;
use vstd::prelude::*;

verus! {

/// A bencode value. The entries of a dictionary are kept in ascending order of
/// their keys, each key once; see [`Bencode::wf`].
#[derive(Debug, PartialEq, Eq)]
pub enum Bencode {
    Int(i64),
    Bytes(Vec<u8>),
    List(Vec<Bencode>),
    Dict(Vec<(Vec<u8>, Bencode)>),
}

/// What a bencode value is, apart from how it is stored.
pub enum BencodeValue {
    Int(i64),
    Bytes(Seq<u8>),
    List(Seq<BencodeValue>),
    Dict(Seq<(Seq<u8>, BencodeValue)>),
}

/// The entries of a dictionary as the model sees them.
pub type Entries = Seq<(Seq<u8>, BencodeValue)>;

/// The model of a list of stored values.
pub open spec fn items_view(l: Seq<Bencode>) -> Seq<BencodeValue>
    decreases l,
{
    Seq::new(
        l.len(),
        |i: int|
            if 0 <= i < l.len() {
                l[i].view()
            } else {
                BencodeValue::Int(0)
            },
    )
}

/// The model of the stored entries of a dictionary.
pub open spec fn entries_view(d: Seq<(Vec<u8>, Bencode)>) -> Entries
    decreases d,
{
    Seq::new(
        d.len(),
        |i: int|
            if 0 <= i < d.len() {
                (d[i].0@, d[i].1.view())
            } else {
                (Seq::empty(), BencodeValue::Int(0))
            },
    )
}

impl View for Bencode {
    type V = BencodeValue;

    open spec fn view(&self) -> BencodeValue
        decreases self,
    {
        match self {
            Bencode::Int(i) => BencodeValue::Int(*i),
            Bencode::Bytes(b) => BencodeValue::Bytes(b@),
            Bencode::List(l) => BencodeValue::List(items_view(l@)),
            Bencode::Dict(d) => BencodeValue::Dict(entries_view(d@)),
        }
    }
}

/// Whether the keys of `d` ascend strictly, so that none occurs twice.
pub open spec fn keys_ascending(d: Entries) -> bool {
    forall|i: int, j: int| 0 <= i < j < d.len() ==> bytes_lt(#[trigger] d[i].0, #[trigger] d[j].0)
}

/// Whether every dictionary inside `v`, at any depth, has ascending keys.
pub open spec fn value_wf(v: BencodeValue) -> bool
    decreases v,
{
    match v {
        BencodeValue::Int(_) => true,
        BencodeValue::Bytes(_) => true,
        BencodeValue::List(l) => forall|i: int| 0 <= i < l.len() ==> value_wf(#[trigger] l[i]),
        BencodeValue::Dict(d) => keys_ascending(d) && forall|i: int|
            0 <= i < d.len() ==> value_wf((#[trigger] d[i]).1),
    }
}

/// How deeply lists and dictionaries are nested in `v`: 0 for an integer or a
/// byte string.
pub open spec fn value_depth(v: BencodeValue) -> nat
    decreases v, 1nat,
{
    match v {
        BencodeValue::Int(_) => 0,
        BencodeValue::Bytes(_) => 0,
        BencodeValue::List(l) => 1 + items_depth(l),
        BencodeValue::Dict(d) => 1 + entries_depth(d),
    }
}

/// The greatest depth among the values of `l`.
pub open spec fn items_depth(l: Seq<BencodeValue>) -> nat
    decreases l, 0nat,
{
    if l.len() == 0 {
        0
    } else {
        let rest = items_depth(l.drop_last());
        let last = value_depth(l.last());
        if last > rest {
            last
        } else {
            rest
        }
    }
}

/// The greatest depth among the values of the entries `d`.
pub open spec fn entries_depth(d: Entries) -> nat
    decreases d, 0nat,
{
    if d.len() == 0 {
        0
    } else {
        let rest = entries_depth(d.drop_last());
        let last = value_depth(d.last().1);
        if last > rest {
            last
        } else {
            rest
        }
    }
}

/// The value stored under `k`, if any: that of the first entry with this key.
pub open spec fn lookup_value(d: Entries, k: Seq<u8>) -> Option<BencodeValue>
    decreases d.len(),
{
    if d.len() == 0 {
        None
    } else if d[0].0 == k {
        Some(d[0].1)
    } else {
        lookup_value(d.drop_first(), k)
    }
}

/// `d` with `v` stored under `k`: in place of the entry that had this key, or
/// else before the first entry with a greater key.
pub open spec fn insert_entry(d: Entries, k: Seq<u8>, v: BencodeValue) -> Entries
    decreases d.len(),
{
    if d.len() == 0 {
        seq![(k, v)]
    } else if d[0].0 == k {
        seq![(k, v)] + d.drop_first()
    } else if bytes_lt(k, d[0].0) {
        seq![(k, v)] + d
    } else {
        seq![d[0]] + insert_entry(d.drop_first(), k, v)
    }
}

/// `d` without the first entry whose key is `k`.
pub open spec fn remove_entry(d: Entries, k: Seq<u8>) -> Entries
    decreases d.len(),
{
    if d.len() == 0 {
        d
    } else if d[0].0 == k {
        d.drop_first()
    } else {
        seq![d[0]] + remove_entry(d.drop_first(), k)
    }
}

/// Whether every key of `d` comes before `k`.
pub open spec fn keys_below(d: Entries, k: Seq<u8>) -> bool {
    forall|i: int| 0 <= i < d.len() ==> bytes_lt((#[trigger] d[i]).0, k)
}

/// No entry has a key that the keys before `k` do not reach.
pub proof fn lemma_lookup_below(d: Entries, k: Seq<u8>)
    requires
        keys_below(d, k),
    ensures
        lookup_value(d, k) is None,
    decreases d.len(),
{
    if d.len() > 0 {
        lemma_lt_irreflexive(k);
        assert(bytes_lt(d[0].0, k));
        assert forall|i: int| 0 <= i < d.drop_first().len() implies bytes_lt(
            (#[trigger] d.drop_first()[i]).0,
            k,
        ) by {
            assert(d.drop_first()[i] == d[i + 1]);
        }
        lemma_lookup_below(d.drop_first(), k);
    }
}

/// Where `k` lies beyond every key, it is stored at the end.
pub proof fn lemma_insert_above(d: Entries, k: Seq<u8>, v: BencodeValue)
    requires
        keys_below(d, k),
    ensures
        insert_entry(d, k, v) == d.push((k, v)),
    decreases d.len(),
{
    if d.len() == 0 {
        assert(insert_entry(d, k, v) =~= d.push((k, v)));
    } else {
        assert(bytes_lt(d[0].0, k));
        lemma_lt_irreflexive(k);
        lemma_lt_asymmetric(k, d[0].0);
        assert forall|i: int| 0 <= i < d.drop_first().len() implies bytes_lt(
            (#[trigger] d.drop_first()[i]).0,
            k,
        ) by {
            assert(d.drop_first()[i] == d[i + 1]);
        }
        lemma_insert_above(d.drop_first(), k, v);
        assert(insert_entry(d, k, v) =~= d.push((k, v)));
    }
}

/// Storing a value keeps the keys in ascending order, and changes the number
/// of entries by at most one.
pub proof fn lemma_insert_ascending(d: Entries, k: Seq<u8>, v: BencodeValue)
    requires
        keys_ascending(d),
    ensures
        keys_ascending(insert_entry(d, k, v)),
        insert_entry(d, k, v).len() == d.len() || insert_entry(d, k, v).len() == d.len() + 1,
        insert_entry(d, k, v).len() > 0,
        d.len() > 0 ==> (insert_entry(d, k, v)[0].0 == d[0].0 || insert_entry(d, k, v)[0].0 == k),
        d.len() == 0 ==> insert_entry(d, k, v)[0].0 == k,
    decreases d.len(),
{
    let r = insert_entry(d, k, v);
    if d.len() == 0 {
    } else if d[0].0 == k {
        assert forall|i: int, j: int| 0 <= i < j < r.len() implies bytes_lt(
            #[trigger] r[i].0,
            #[trigger] r[j].0,
        ) by {
            if i == 0 {
                assert(r[j] == d[j]);
                assert(bytes_lt(d[0].0, d[j].0));
            } else {
                assert(r[i] == d[i]);
                assert(r[j] == d[j]);
            }
        }
    } else if bytes_lt(k, d[0].0) {
        assert forall|i: int, j: int| 0 <= i < j < r.len() implies bytes_lt(
            #[trigger] r[i].0,
            #[trigger] r[j].0,
        ) by {
            if i == 0 {
                assert(r[j] == d[j - 1]);
                if j > 1 {
                    assert(bytes_lt(d[0].0, d[j - 1].0));
                    lemma_lt_transitive(k, d[0].0, d[j - 1].0);
                }
            } else {
                assert(r[i] == d[i - 1]);
                assert(r[j] == d[j - 1]);
            }
        }
    } else {
        let rest = d.drop_first();
        assert forall|i: int, j: int| 0 <= i < j < rest.len() implies bytes_lt(
            #[trigger] rest[i].0,
            #[trigger] rest[j].0,
        ) by {
            assert(rest[i] == d[i + 1]);
            assert(rest[j] == d[j + 1]);
        }
        lemma_insert_ascending(rest, k, v);
        let ri = insert_entry(rest, k, v);
        lemma_lt_total(k, d[0].0);
        assert(bytes_lt(d[0].0, k));
        assert forall|i: int, j: int| 0 <= i < j < r.len() implies bytes_lt(
            #[trigger] r[i].0,
            #[trigger] r[j].0,
        ) by {
            if i == 0 {
                assert(r[j] == ri[j - 1]);
                if rest.len() > 0 {
                    assert(rest[0] == d[1]);
                    assert(bytes_lt(d[0].0, d[1].0));
                }
                if j - 1 == 0 {
                } else {
                    assert(bytes_lt(ri[0].0, ri[j - 1].0));
                    lemma_lt_transitive(d[0].0, ri[0].0, ri[j - 1].0);
                }
            } else {
                assert(r[i] == ri[i - 1]);
                assert(r[j] == ri[j - 1]);
            }
        }
    }
}

/// After storing `v` under `k`, looking `k` up finds `v`, and every other key
/// finds what it found before.
pub proof fn lemma_lookup_after_insert(d: Entries, k: Seq<u8>, v: BencodeValue, q: Seq<u8>)
    ensures
        lookup_value(insert_entry(d, k, v), q) == (if q == k {
            Some(v)
        } else {
            lookup_value(d, q)
        }),
    decreases d.len(),
{
    let r = insert_entry(d, k, v);
    if d.len() == 0 {
        assert(r.drop_first() =~= d);
    } else if d[0].0 == k {
        assert(r.drop_first() =~= d.drop_first());
    } else if bytes_lt(k, d[0].0) {
        assert(r.drop_first() =~= d);
    } else {
        lemma_lookup_after_insert(d.drop_first(), k, v, q);
        assert(r.drop_first() =~= insert_entry(d.drop_first(), k, v));
    }
}

/// Removing a key keeps the keys in ascending order; afterwards the key finds
/// nothing, and every other key finds what it found before.
pub proof fn lemma_remove_ascending(d: Entries, k: Seq<u8>, q: Seq<u8>)
    requires
        keys_ascending(d),
    ensures
        keys_ascending(remove_entry(d, k)),
        remove_entry(d, k).len() <= d.len(),
        forall|i: int|
            0 <= i < remove_entry(d, k).len() ==> exists|j: int|
                0 <= j < d.len() && d[j] == #[trigger] remove_entry(d, k)[i],
        lookup_value(remove_entry(d, k), q) == (if q == k {
            None
        } else {
            lookup_value(d, q)
        }),
    decreases d.len(),
{
    let r = remove_entry(d, k);
    if d.len() == 0 {
    } else {
        let rest = d.drop_first();
        assert forall|i: int, j: int| 0 <= i < j < rest.len() implies bytes_lt(
            #[trigger] rest[i].0,
            #[trigger] rest[j].0,
        ) by {
            assert(rest[i] == d[i + 1]);
            assert(rest[j] == d[j + 1]);
        }
        if d[0].0 == k {
            assert forall|i: int| 0 <= i < rest.len() implies bytes_lt(
                k,
                (#[trigger] rest[i]).0,
            ) by {
                assert(rest[i] == d[i + 1]);
                assert(bytes_lt(d[0].0, d[i + 1].0));
            }
            lemma_lookup_above(rest, k);
            assert forall|i: int| 0 <= i < r.len() implies exists|j: int|
                0 <= j < d.len() && d[j] == #[trigger] r[i] by {
                assert(d[i + 1] == r[i]);
            }
        } else {
            lemma_remove_ascending(rest, k, q);
            let rr = remove_entry(rest, k);
            assert(r.drop_first() =~= rr);
            assert forall|i: int| 0 <= i < r.len() implies exists|j: int|
                0 <= j < d.len() && d[j] == #[trigger] r[i] by {
                if i == 0 {
                    assert(d[0] == r[0]);
                } else {
                    assert(r[i] == rr[i - 1]);
                    let j = choose|j: int| 0 <= j < rest.len() && rest[j] == rr[i - 1];
                    assert(d[j + 1] == r[i]);
                }
            }
            assert forall|i: int, j: int| 0 <= i < j < r.len() implies bytes_lt(
                #[trigger] r[i].0,
                #[trigger] r[j].0,
            ) by {
                if i == 0 {
                    assert(r[j] == rr[j - 1]);
                    let m = choose|m: int| 0 <= m < rest.len() && rest[m] == rr[j - 1];
                    assert(rest[m] == d[m + 1]);
                    assert(bytes_lt(d[0].0, d[m + 1].0));
                } else {
                    assert(r[i] == rr[i - 1]);
                    assert(r[j] == rr[j - 1]);
                }
            }
        }
    }
}

/// A key below every key of `d` is not among them.
pub proof fn lemma_lookup_above(d: Entries, k: Seq<u8>)
    requires
        forall|i: int| 0 <= i < d.len() ==> bytes_lt(k, (#[trigger] d[i]).0),
    ensures
        lookup_value(d, k) is None,
    decreases d.len(),
{
    if d.len() > 0 {
        lemma_lt_irreflexive(k);
        assert(bytes_lt(k, d[0].0));
        assert forall|i: int| 0 <= i < d.drop_first().len() implies bytes_lt(
            k,
            (#[trigger] d.drop_first()[i]).0,
        ) by {
            assert(d.drop_first()[i] == d[i + 1]);
        }
        lemma_lookup_above(d.drop_first(), k);
    }
}

/// The model of a value that may be absent.
pub open spec fn option_view(o: Option<&Bencode>) -> Option<BencodeValue> {
    match o {
        Some(b) => Some(b@),
        None => None,
    }
}

/// The model of a value that was taken out, if one was.
pub open spec fn taken_view(o: Option<Bencode>) -> Option<BencodeValue> {
    match o {
        Some(b) => Some(b@),
        None => None,
    }
}

/// Index of the entry of `d` with key `key`.
pub fn entries_find(d: &Vec<(Vec<u8>, Bencode)>, key: &[u8]) -> (r: Option<usize>)
    ensures
        r matches Some(i) ==> i < d.len() && d[i as int].0@ == key@ && lookup_value(
            entries_view(d@),
            key@,
        ) == Some(d[i as int].1@),
        r is None ==> lookup_value(entries_view(d@), key@) is None,
{
    let ghost ev = entries_view(d@);
    let mut i: usize = 0;
    assert(ev.skip(0) =~= ev);
    while i < d.len()
        invariant
            i <= d.len(),
            ev == entries_view(d@),
            lookup_value(ev, key@) == lookup_value(ev.skip(i as int), key@),
        decreases d.len() - i,
    {
        proof {
            assert(ev.skip(i as int)[0] == ev[i as int]);
            assert(ev.skip(i as int).drop_first() =~= ev.skip(i + 1));
        }
        if bytes_equal(d[i].0.as_slice(), key) {
            return Some(i);
        }
        i += 1;
    }
    None
}

/// Stores `value` under `key`, in place of what was there or else at the place
/// that keeps the keys ascending, and hands back what was there.
pub fn entries_insert(d: &mut Vec<(Vec<u8>, Bencode)>, key: Vec<u8>, value: Bencode) -> (r: Option<
    Bencode,
>)
    ensures
        entries_view(final(d)@) == insert_entry(entries_view(old(d)@), key@, value@),
        keys_ascending(entries_view(old(d)@)) ==> taken_view(r) == lookup_value(
            entries_view(old(d)@),
            key@,
        ),
{
    let ghost ev = entries_view(d@);
    let ghost k = key@;
    let ghost v = value@;
    let mut p: usize = 0;
    proof {
        assert(ev.skip(0) =~= ev);
        assert(ev.subrange(0, 0) + insert_entry(ev, k, v) =~= insert_entry(ev, k, v));
    }
    while p < d.len() && bytes_less(d[p].0.as_slice(), key.as_slice())
        invariant
            p <= d.len(),
            d@ == old(d)@,
            ev == entries_view(d@),
            k == key@,
            insert_entry(ev, k, v) == ev.subrange(0, p as int) + insert_entry(
                ev.skip(p as int),
                k,
                v,
            ),
            lookup_value(ev, k) == lookup_value(ev.skip(p as int), k),
        decreases d.len() - p,
    {
        proof {
            let tail = ev.skip(p as int);
            assert(tail[0] == ev[p as int]);
            assert(tail.drop_first() =~= ev.skip(p + 1));
            lemma_lt_irreflexive(k);
            lemma_lt_asymmetric(k, tail[0].0);
            assert(ev.subrange(0, p as int) + (seq![tail[0]] + insert_entry(
                tail.drop_first(),
                k,
                v,
            )) =~= ev.subrange(0, p + 1) + insert_entry(ev.skip(p + 1), k, v));
        }
        p += 1;
    }
    proof {
        if p < d.len() {
            let tail = ev.skip(p as int);
            assert(tail[0] == ev[p as int]);
            assert(tail.drop_first() =~= ev.skip(p + 1));
            lemma_lt_total(k, tail[0].0);
            if keys_ascending(ev) && tail[0].0 != k {
                assert forall|i: int| 0 <= i < tail.len() implies bytes_lt(
                    k,
                    (#[trigger] tail[i]).0,
                ) by {
                    assert(tail[i] == ev[p + i]);
                    if i > 0 {
                        assert(bytes_lt(ev[p as int].0, ev[p + i].0));
                        lemma_lt_transitive(k, tail[0].0, tail[i].0);
                    }
                }
                lemma_lookup_above(tail, k);
            }
        } else {
            assert(ev.skip(p as int) =~= Seq::<(Seq<u8>, BencodeValue)>::empty());
        }
    }
    if p < d.len() && bytes_equal(d[p].0.as_slice(), key.as_slice()) {
        let old_entry = d.remove(p);
        d.insert(p, (key, value));
        proof {
            assert(entries_view(d@) =~= ev.subrange(0, p as int) + (seq![(k, v)] + ev.skip(
                p as int,
            ).drop_first()));
        }
        Some(old_entry.1)
    } else {
        d.insert(p, (key, value));
        proof {
            assert(entries_view(d@) =~= ev.subrange(0, p as int) + (seq![(k, v)] + ev.skip(
                p as int,
            )));
        }
        None
    }
}

/// Takes out the entry stored under `key`, if there is one.
pub fn entries_remove(d: &mut Vec<(Vec<u8>, Bencode)>, key: &[u8]) -> (r: Option<Bencode>)
    ensures
        entries_view(final(d)@) == remove_entry(entries_view(old(d)@), key@),
        taken_view(r) == lookup_value(entries_view(old(d)@), key@),
{
    let ghost ev = entries_view(d@);
    let ghost k = key@;
    let mut p: usize = 0;
    proof {
        assert(ev.skip(0) =~= ev);
        assert(ev.subrange(0, 0) + remove_entry(ev, k) =~= remove_entry(ev, k));
    }
    while p < d.len() && !bytes_equal(d[p].0.as_slice(), key)
        invariant
            p <= d.len(),
            d@ == old(d)@,
            ev == entries_view(d@),
            k == key@,
            remove_entry(ev, k) == ev.subrange(0, p as int) + remove_entry(ev.skip(p as int), k),
            lookup_value(ev, k) == lookup_value(ev.skip(p as int), k),
        decreases d.len() - p,
    {
        proof {
            let tail = ev.skip(p as int);
            assert(tail[0] == ev[p as int]);
            assert(tail.drop_first() =~= ev.skip(p + 1));
            assert(ev.subrange(0, p as int) + (seq![tail[0]] + remove_entry(tail.drop_first(), k))
                =~= ev.subrange(0, p + 1) + remove_entry(ev.skip(p + 1), k));
        }
        p += 1;
    }
    if p < d.len() {
        proof {
            let tail = ev.skip(p as int);
            assert(tail[0] == ev[p as int]);
        }
        let old_entry = d.remove(p);
        proof {
            assert(entries_view(d@) =~= ev.subrange(0, p as int) + ev.skip(p as int).drop_first());
        }
        Some(old_entry.1)
    } else {
        proof {
            assert(ev.skip(p as int) =~= Seq::<(Seq<u8>, BencodeValue)>::empty());
            assert(ev.subrange(0, p as int) + Seq::<(Seq<u8>, BencodeValue)>::empty() =~= ev);
        }
        None
    }
}

impl Bencode {
    /// Whether every dictionary inside the value has ascending keys. Every
    /// function of this module that makes or changes a value keeps it so.
    pub open spec fn wf(&self) -> bool {
        value_wf(self@)
    }

    /// An integer.
    pub fn new_int(value: i64) -> (r: Bencode)
        ensures
            r@ == BencodeValue::Int(value),
    {
        Bencode::Int(value)
    }

    /// A byte string.
    pub fn new_bytes(value: Vec<u8>) -> (r: Bencode)
        ensures
            r@ == BencodeValue::Bytes(value@),
    {
        Bencode::Bytes(value)
    }

    /// The empty list.
    pub fn new_list() -> (r: Bencode)
        ensures
            r@ == BencodeValue::List(Seq::empty()),
    {
        let r = Bencode::List(Vec::new());
        assert(r@->List_0 =~= Seq::<BencodeValue>::empty());
        r
    }

    /// The empty dictionary.
    pub fn new_dict() -> (r: Bencode)
        ensures
            r@ == BencodeValue::Dict(Seq::empty()),
    {
        let r = Bencode::Dict(Vec::new());
        assert(r@->Dict_0 =~= Seq::<(Seq<u8>, BencodeValue)>::empty());
        r
    }

    /// A copy of the value.
    pub fn duplicate(&self) -> (r: Bencode)
        ensures
            r@ == self@,
        decreases self,
    {
        match self {
            Bencode::Int(i) => Bencode::Int(*i),
            Bencode::Bytes(b) => Bencode::Bytes(crate::util::convert::copy_bytes(b.as_slice())),
            Bencode::List(l) => {
                let mut items: Vec<Bencode> = Vec::new();
                let mut i: usize = 0;
                while i < l.len()
                    invariant
                        i <= l.len(),
                        self is List,
                        self->List_0 == *l,
                        items@.len() == i,
                        forall|j: int| 0 <= j < i ==> (#[trigger] items@[j])@ == l@[j]@,
                    decreases l.len() - i,
                {
                    items.push(l[i].duplicate());
                    i += 1;
                }
                let r = Bencode::List(items);
                assert(r@->List_0 =~= items_view(l@));
                r
            },
            Bencode::Dict(d) => {
                let mut entries: Vec<(Vec<u8>, Bencode)> = Vec::new();
                let mut i: usize = 0;
                while i < d.len()
                    invariant
                        i <= d.len(),
                        self is Dict,
                        self->Dict_0 == *d,
                        entries@.len() == i,
                        forall|j: int|
                            0 <= j < i ==> (#[trigger] entries@[j]).0@ == d@[j].0@ && entries@[j].1@
                                == d@[j].1@,
                    decreases d.len() - i,
                {
                    entries.push(
                        (crate::util::convert::copy_bytes(d[i].0.as_slice()), d[i].1.duplicate()),
                    );
                    i += 1;
                }
                let r = Bencode::Dict(entries);
                assert(r@->Dict_0 =~= entries_view(d@));
                r
            },
        }
    }

    /// The integer, where the value is one.
    pub fn as_int(&self) -> (r: Option<i64>)
        ensures
            r == (match self@ {
                BencodeValue::Int(i) => Some(i),
                _ => None,
            }),
    {
        match self {
            Bencode::Int(i) => Some(*i),
            _ => None,
        }
    }

    /// The bytes, where the value is a byte string.
    pub fn as_bytes(&self) -> (r: Option<&[u8]>)
        ensures
            self@ is Bytes <==> r is Some,
            r matches Some(b) ==> self@ == BencodeValue::Bytes(b@),
    {
        match self {
            Bencode::Bytes(b) => Some(b.as_slice()),
            _ => None,
        }
    }

    /// The items, where the value is a list.
    pub fn as_list(&self) -> (r: Option<&Vec<Bencode>>)
        ensures
            self@ is List <==> r is Some,
            r matches Some(l) ==> self@ == BencodeValue::List(items_view(l@)),
    {
        match self {
            Bencode::List(l) => Some(l),
            _ => None,
        }
    }

    /// The entries, where the value is a dictionary.
    pub fn as_dict(&self) -> (r: Option<&Vec<(Vec<u8>, Bencode)>>)
        ensures
            self@ is Dict <==> r is Some,
            r matches Some(d) ==> self@ == BencodeValue::Dict(entries_view(d@)),
    {
        match self {
            Bencode::Dict(d) => Some(d),
            _ => None,
        }
    }

    /// The value stored under `key`, where this is a dictionary that has the
    /// key.
    pub fn lookup(&self, key: &[u8]) -> (r: Option<&Bencode>)
        ensures
            option_view(r) == (match self@ {
                BencodeValue::Dict(d) => lookup_value(d, key@),
                _ => None,
            }),
    {
        match self {
            Bencode::Dict(d) => {
                match entries_find(d, key) {
                    Some(i) => Some(&d[i].1),
                    None => None,
                }
            },
            _ => None,
        }
    }

    /// Stores `value` under `key` in this dictionary and hands back what the
    /// key held before.
    pub fn insert(&mut self, key: Vec<u8>, value: Bencode) -> (r: Option<Bencode>)
        requires
            old(self)@ is Dict,
        ensures
            final(self)@ == BencodeValue::Dict(insert_entry(old(self)@->Dict_0, key@, value@)),
            old(self).wf() ==> taken_view(r) == lookup_value(old(self)@->Dict_0, key@),
            old(self).wf() && value.wf() ==> final(self).wf(),
    {
        proof {
            if old(self).wf() && value.wf() {
                lemma_insert_wf(old(self)@->Dict_0, key@, value@);
            }
        }
        match self {
            Bencode::Dict(d) => entries_insert(d, key, value),
            _ => None,
        }
    }

    /// Takes the entry stored under `key` out of this dictionary.
    pub fn remove(&mut self, key: &[u8]) -> (r: Option<Bencode>)
        requires
            old(self)@ is Dict,
        ensures
            final(self)@ == BencodeValue::Dict(remove_entry(old(self)@->Dict_0, key@)),
            taken_view(r) == lookup_value(old(self)@->Dict_0, key@),
            old(self).wf() ==> final(self).wf(),
    {
        proof {
            if old(self).wf() {
                lemma_remove_wf(old(self)@->Dict_0, key@);
            }
        }
        match self {
            Bencode::Dict(d) => entries_remove(d, key),
            _ => None,
        }
    }

    /// Appends `value` to this list.
    pub fn push(&mut self, value: Bencode)
        requires
            old(self)@ is List,
        ensures
            final(self)@ == BencodeValue::List(old(self)@->List_0.push(value@)),
            old(self).wf() && value.wf() ==> final(self).wf(),
    {
        let ghost v = value@;
        match self {
            Bencode::List(l) => {
                let ghost before = l@;
                l.push(value);
                assert(items_view(l@) =~= items_view(before).push(v));
            },
            _ => {},
        }
        proof {
            if old(self).wf() && value_wf(v) {
                let items = old(self)@->List_0.push(v);
                assert forall|i: int| 0 <= i < items.len() implies value_wf(
                    #[trigger] items[i],
                ) by {
                    if i < items.len() - 1 {
                        assert(items[i] == old(self)@->List_0[i]);
                    }
                }
            }
        }
    }
}

/// Storing a well-formed value in a well-formed dictionary leaves it
/// well-formed.
pub proof fn lemma_insert_wf(d: Entries, k: Seq<u8>, v: BencodeValue)
    requires
        value_wf(BencodeValue::Dict(d)),
        value_wf(v),
    ensures
        value_wf(BencodeValue::Dict(insert_entry(d, k, v))),
{
    lemma_insert_ascending(d, k, v);
    lemma_insert_members(d, k, v);
    let r = insert_entry(d, k, v);
    assert forall|i: int| 0 <= i < r.len() implies value_wf((#[trigger] r[i]).1) by {
        if r[i] != (k, v) {
            let j = choose|j: int| 0 <= j < d.len() && d[j] == r[i];
            assert(value_wf(d[j].1));
        }
    }
}

/// Every entry after storing `(k, v)` is that pair or was there before.
pub proof fn lemma_insert_members(d: Entries, k: Seq<u8>, v: BencodeValue)
    ensures
        forall|i: int|
            0 <= i < insert_entry(d, k, v).len() ==> (#[trigger] insert_entry(d, k, v)[i]) == (k, v)
                || exists|j: int| 0 <= j < d.len() && d[j] == insert_entry(d, k, v)[i],
    decreases d.len(),
{
    let r = insert_entry(d, k, v);
    if d.len() == 0 {
    } else if d[0].0 == k {
        assert forall|i: int| 0 <= i < r.len() implies (#[trigger] r[i]) == (k, v) || exists|j: int|
            0 <= j < d.len() && d[j] == r[i] by {
            if i > 0 {
                assert(d[i] == r[i]);
            }
        }
    } else if bytes_lt(k, d[0].0) {
        assert forall|i: int| 0 <= i < r.len() implies (#[trigger] r[i]) == (k, v) || exists|j: int|
            0 <= j < d.len() && d[j] == r[i] by {
            if i > 0 {
                assert(d[i - 1] == r[i]);
            }
        }
    } else {
        let rest = d.drop_first();
        lemma_insert_members(rest, k, v);
        let ri = insert_entry(rest, k, v);
        assert forall|i: int| 0 <= i < r.len() implies (#[trigger] r[i]) == (k, v) || exists|j: int|
            0 <= j < d.len() && d[j] == r[i] by {
            if i == 0 {
                assert(d[0] == r[0]);
            } else {
                assert(r[i] == ri[i - 1]);
                if ri[i - 1] != (k, v) {
                    let j = choose|j: int| 0 <= j < rest.len() && rest[j] == ri[i - 1];
                    assert(d[j + 1] == r[i]);
                }
            }
        }
    }
}

/// Removing a key from a well-formed dictionary leaves it well-formed.
pub proof fn lemma_remove_wf(d: Entries, k: Seq<u8>)
    requires
        value_wf(BencodeValue::Dict(d)),
    ensures
        value_wf(BencodeValue::Dict(remove_entry(d, k))),
{
    lemma_remove_ascending(d, k, k);
    let r = remove_entry(d, k);
    assert forall|i: int| 0 <= i < r.len() implies value_wf((#[trigger] r[i]).1) by {
        let j = choose|j: int| 0 <= j < d.len() && d[j] == r[i];
        assert(value_wf(d[j].1));
    }
}

} // verus!
