//! Big-endian integers on the wire.
//!
//! Every fixed-width field of the peer, tracker and compact formats is an
//! unsigned integer written most significant byte first. The two spec
//! functions below say what such a field denotes; the executable readers and
//! writers are stated against them.

use byteorder::ByteOrder;
use vstd::prelude::*;
use vstd::slice::slice_subrange;

verus! {

/// The number that `s` denotes when read most significant byte first.
pub open spec fn be_value(s: Seq<u8>) -> nat
    decreases s.len(),
{
    if s.len() == 0 {
        0
    } else {
        be_value(s.drop_last()) * 256 + s.last() as nat
    }
}

/// The `n` bytes that denote `v` most significant byte first. Digits of `v`
/// beyond the `n`-th are dropped.
pub open spec fn be_bytes(v: nat, n: nat) -> Seq<u8>
    decreases n,
{
    if n == 0 {
        Seq::empty()
    } else {
        be_bytes(v / 256, (n - 1) as nat).push((v % 256) as u8)
    }
}

/// 256 to the power `n`: the number of values that `n` bytes can denote.
pub open spec fn radix_pow(n: nat) -> nat
    decreases n,
{
    if n == 0 {
        1
    } else {
        256 * radix_pow((n - 1) as nat)
    }
}

/// `be_bytes` always yields exactly `n` bytes.
pub proof fn lemma_be_bytes_len(v: nat, n: nat)
    ensures
        be_bytes(v, n).len() == n,
    decreases n,
{
    if n > 0 {
        lemma_be_bytes_len(v / 256, (n - 1) as nat);
    }
}

/// What `n` bytes denote is below 256 to the `n`.
pub proof fn lemma_be_value_bound(s: Seq<u8>)
    ensures
        be_value(s) < radix_pow(s.len()),
    decreases s.len(),
{
    if s.len() > 0 {
        lemma_be_value_bound(s.drop_last());
        assert(radix_pow(s.len()) == 256 * radix_pow((s.len() - 1) as nat));
    }
}

/// Writing what a sequence denotes, at its own width, gives the sequence back.
pub proof fn lemma_be_bytes_of_value(s: Seq<u8>)
    ensures
        be_bytes(be_value(s), s.len()) == s,
    decreases s.len(),
{
    if s.len() > 0 {
        let init = s.drop_last();
        lemma_be_bytes_of_value(init);
        let v = be_value(s);
        assert(v / 256 == be_value(init));
        assert(v % 256 == s.last() as nat);
        assert(be_bytes(v, s.len()) =~= s);
    } else {
        assert(be_bytes(be_value(s), 0) =~= s);
    }
}

/// Reading back the `n` bytes written for `v` gives `v`, provided `v` fits.
pub proof fn lemma_be_value_of_bytes(v: nat, n: nat)
    requires
        v < radix_pow(n),
    ensures
        be_value(be_bytes(v, n)) == v,
    decreases n,
{
    if n > 0 {
        let m = (n - 1) as nat;
        assert(v / 256 < radix_pow(m));
        lemma_be_value_of_bytes(v / 256, m);
        let s = be_bytes(v, n);
        assert(s.drop_last() =~= be_bytes(v / 256, m));
        assert(s.last() == (v % 256) as u8);
    }
}

/// The widths used on the wire, as plain numbers.
pub proof fn lemma_radix_pow_values()
    ensures
        radix_pow(1) == 0x100,
        radix_pow(2) == 0x1_0000,
        radix_pow(4) == 0x1_0000_0000,
        radix_pow(8) == 0x1_0000_0000_0000_0000,
{
    reveal_with_fuel(radix_pow, 9);
}

/// Two sequences of one width that denote the same number are equal.
pub proof fn lemma_be_value_injective(a: Seq<u8>, b: Seq<u8>)
    requires
        a.len() == b.len(),
        be_value(a) == be_value(b),
    ensures
        a == b,
{
    lemma_be_bytes_of_value(a);
    lemma_be_bytes_of_value(b);
}

/// Two values that fit `n` bytes and are written alike are equal.
pub proof fn lemma_be_bytes_injective(a: nat, b: nat, n: nat)
    requires
        a < radix_pow(n),
        b < radix_pow(n),
        be_bytes(a, n) == be_bytes(b, n),
    ensures
        a == b,
{
    lemma_be_value_of_bytes(a, n);
    lemma_be_value_of_bytes(b, n);
}

/// Equal concatenations whose right parts have one length have equal parts.
pub proof fn lemma_concat_parts(a1: Seq<u8>, b1: Seq<u8>, a2: Seq<u8>, b2: Seq<u8>)
    requires
        a1 + b1 == a2 + b2,
        b1.len() == b2.len(),
    ensures
        a1 == a2,
        b1 == b2,
{
    assert((a1 + b1).len() == (a2 + b2).len());
    assert(a1 =~= (a1 + b1).subrange(0, a1.len() as int));
    assert(a2 =~= (a2 + b2).subrange(0, a2.len() as int));
    assert(b1 =~= (a1 + b1).subrange(a1.len() as int, (a1 + b1).len() as int));
    assert(b2 =~= (a2 + b2).subrange(a2.len() as int, (a2 + b2).len() as int));
}

/// What a field of `n` bytes at offset `at` of `s` denotes, or `None` where
/// `s` ends before the field does.
pub open spec fn field_at(s: Seq<u8>, at: int, n: int) -> Option<nat> {
    if 0 <= at && 0 <= n && at + n <= s.len() {
        Some(be_value(s.subrange(at, at + n)))
    } else {
        None
    }
}

/// `nom::number::complete::be_u16` on a byte slice: with fewer than two bytes
/// it fails; otherwise it folds the first two bytes, most significant first.
#[verifier::external_body]
fn nom_be_u16(input: &[u8]) -> (r: Option<u16>)
    ensures
        r == (if input@.len() >= 2 {
            Some(be_value(input@.subrange(0, 2)) as u16)
        } else {
            None
        }),
{
    match nom::number::complete::be_u16::<&[u8], nom::error::Error<&[u8]>>(input) {
        Ok((_, v)) => Some(v),
        Err(_) => None,
    }
}

/// `nom::number::complete::be_u32` on a byte slice: with fewer than four bytes
/// it fails; otherwise it folds the first four bytes, most significant first.
#[verifier::external_body]
fn nom_be_u32(input: &[u8]) -> (r: Option<u32>)
    ensures
        r == (if input@.len() >= 4 {
            Some(be_value(input@.subrange(0, 4)) as u32)
        } else {
            None
        }),
{
    match nom::number::complete::be_u32::<&[u8], nom::error::Error<&[u8]>>(input) {
        Ok((_, v)) => Some(v),
        Err(_) => None,
    }
}

/// `nom::number::complete::be_u64` on a byte slice: with fewer than eight
/// bytes it fails; otherwise it folds the first eight bytes, most significant
/// first.
#[verifier::external_body]
fn nom_be_u64(input: &[u8]) -> (r: Option<u64>)
    ensures
        r == (if input@.len() >= 8 {
            Some(be_value(input@.subrange(0, 8)) as u64)
        } else {
            None
        }),
{
    match nom::number::complete::be_u64::<&[u8], nom::error::Error<&[u8]>>(input) {
        Ok((_, v)) => Some(v),
        Err(_) => None,
    }
}

/// `byteorder::BigEndian::write_u16` into a buffer of two bytes: the buffer
/// then holds `v`, most significant byte first.
#[verifier::external_body]
fn byteorder_u16(v: u16) -> (r: [u8; 2])
    ensures
        r@ == be_bytes(v as nat, 2),
{
    let mut buf = [0u8; 2];
    byteorder::BigEndian::write_u16(&mut buf, v);
    buf
}

/// `byteorder::BigEndian::write_u32` into a buffer of four bytes: the buffer
/// then holds `v`, most significant byte first.
#[verifier::external_body]
fn byteorder_u32(v: u32) -> (r: [u8; 4])
    ensures
        r@ == be_bytes(v as nat, 4),
{
    let mut buf = [0u8; 4];
    byteorder::BigEndian::write_u32(&mut buf, v);
    buf
}

/// `byteorder::BigEndian::write_u64` into a buffer of eight bytes: the buffer
/// then holds `v`, most significant byte first.
#[verifier::external_body]
fn byteorder_u64(v: u64) -> (r: [u8; 8])
    ensures
        r@ == be_bytes(v as nat, 8),
{
    let mut buf = [0u8; 8];
    byteorder::BigEndian::write_u64(&mut buf, v);
    buf
}

/// Appends `src` to `out`.
pub fn extend_bytes(out: &mut Vec<u8>, src: &[u8])
    ensures
        final(out)@ == old(out)@ + src@,
{
    let mut i: usize = 0;
    while i < src.len()
        invariant
            i <= src.len(),
            out@ == old(out)@ + src@.subrange(0, i as int),
        decreases src.len() - i,
    {
        out.push(src[i]);
        i += 1;
    }
    assert(src@.subrange(0, src@.len() as int) =~= src@);
}

/// An owned copy of `src`.
pub fn copy_bytes(src: &[u8]) -> (r: Vec<u8>)
    ensures
        r@ == src@,
{
    let mut out: Vec<u8> = Vec::new();
    extend_bytes(&mut out, src);
    out
}

/// Whether two byte strings are equal.
pub fn bytes_equal(a: &[u8], b: &[u8]) -> (r: bool)
    ensures
        r == (a@ == b@),
{
    if a.len() != b.len() {
        return false;
    }
    let mut i: usize = 0;
    while i < a.len()
        invariant
            i <= a.len(),
            a.len() == b.len(),
            a@.subrange(0, i as int) == b@.subrange(0, i as int),
        decreases a.len() - i,
    {
        if a[i] != b[i] {
            return false;
        }
        assert(a@.subrange(0, i + 1) =~= a@.subrange(0, i as int).push(a@[i as int]));
        assert(b@.subrange(0, i + 1) =~= b@.subrange(0, i as int).push(b@[i as int]));
        i += 1;
    }
    assert(a@.subrange(0, a@.len() as int) =~= a@);
    assert(b@.subrange(0, b@.len() as int) =~= b@);
    true
}

/// Reads the two-byte field at offset `at`.
pub fn read_u16_be(bytes: &[u8], at: usize) -> (r: Option<u16>)
    ensures
        r is Some <==> at + 2 <= bytes@.len(),
        r matches Some(v) ==> field_at(bytes@, at as int, 2) == Some(v as nat),
{
    if at > bytes.len() || bytes.len() - at < 2 {
        return None;
    }
    let field = slice_subrange(bytes, at, at + 2);
    proof {
        assert(field@.subrange(0, 2) =~= field@);
        lemma_be_value_bound(field@);
        lemma_radix_pow_values();
    }
    nom_be_u16(field)
}

/// Reads the four-byte field at offset `at`.
pub fn read_u32_be(bytes: &[u8], at: usize) -> (r: Option<u32>)
    ensures
        r is Some <==> at + 4 <= bytes@.len(),
        r matches Some(v) ==> field_at(bytes@, at as int, 4) == Some(v as nat),
{
    if at > bytes.len() || bytes.len() - at < 4 {
        return None;
    }
    let field = slice_subrange(bytes, at, at + 4);
    proof {
        assert(field@.subrange(0, 4) =~= field@);
        lemma_be_value_bound(field@);
        lemma_radix_pow_values();
    }
    nom_be_u32(field)
}

/// Reads the eight-byte field at offset `at`.
pub fn read_u64_be(bytes: &[u8], at: usize) -> (r: Option<u64>)
    ensures
        r is Some <==> at + 8 <= bytes@.len(),
        r matches Some(v) ==> field_at(bytes@, at as int, 8) == Some(v as nat),
{
    if at > bytes.len() || bytes.len() - at < 8 {
        return None;
    }
    let field = slice_subrange(bytes, at, at + 8);
    proof {
        assert(field@.subrange(0, 8) =~= field@);
        lemma_be_value_bound(field@);
        lemma_radix_pow_values();
    }
    nom_be_u64(field)
}

/// Appends `v` as two bytes.
pub fn write_u16_be(out: &mut Vec<u8>, v: u16)
    ensures
        final(out)@ == old(out)@ + be_bytes(v as nat, 2),
{
    let field = byteorder_u16(v);
    extend_bytes(out, field.as_slice());
}

/// Appends `v` as four bytes.
pub fn write_u32_be(out: &mut Vec<u8>, v: u32)
    ensures
        final(out)@ == old(out)@ + be_bytes(v as nat, 4),
{
    let field = byteorder_u32(v);
    extend_bytes(out, field.as_slice());
}

/// Appends `v` as eight bytes.
pub fn write_u64_be(out: &mut Vec<u8>, v: u64)
    ensures
        final(out)@ == old(out)@ + be_bytes(v as nat, 8),
{
    let field = byteorder_u64(v);
    extend_bytes(out, field.as_slice());
}

} // verus!
