//! Reading bencode values from bytes.
//!
//! The reader accepts what the canonical encoding produces, and besides that
//! dictionaries whose entries are not in the order of their keys; it puts
//! them in order. It refuses numbers with leading zeros, negative zero,
//! integers beyond 64 bits, a key that occurs twice in one dictionary,
//! nesting deeper than a limit, and, when a whole input is read, bytes behind
//! the value.

use crate::bencode::encode::{BEN_END, BYTE_LEN_END, DICT_START, DIGIT_ZERO, INT_START, LIST_START, MINUS};
use crate::bencode::value::{
    entries_find,
    entries_insert,
    entries_view,
    insert_entry,
    items_view,
    lemma_insert_wf,
    lookup_value,
    value_wf,
    Bencode,
    BencodeValue,
    Entries,
};
use crate::util::convert::copy_bytes;
use vstd::prelude::*;
use vstd::slice::slice_subrange;

verus! {

/// How deeply lists and dictionaries may be nested in an input that is read
/// as a whole.
pub const MAX_DEPTH: usize = 50;

/// Why bytes were not accepted as a bencode value.
#[derive(Copy, Clone, Debug, PartialEq, Eq, Structural)]
pub enum BencodeParseError {
    /// The input ends inside a value.
    Truncated,
    /// A byte stands where no value can start or where another byte is due.
    InvalidByte,
    /// A number has a leading zero, or an integer is negative zero or does
    /// not fit 64 bits.
    InvalidNumber,
    /// A key occurs twice in one dictionary.
    DuplicateKey,
    /// Lists and dictionaries are nested more deeply than allowed.
    DepthExceeded,
    /// Bytes follow the value.
    TrailingBytes,
}

/// Whether `b` is one of the ten digits.
pub open spec fn is_digit(b: u8) -> bool {
    0x30 <= b <= 0x39
}

/// The first position from `pos` on that holds no digit.
pub open spec fn digits_end(s: Seq<u8>, pos: nat) -> nat
    decreases s.len() - pos,
{
    if pos < s.len() && is_digit(s[pos as int]) {
        digits_end(s, pos + 1)
    } else {
        pos
    }
}

/// The number that the digits `s` denote in decimal.
pub open spec fn decimal_value(s: Seq<u8>) -> nat
    decreases s.len(),
{
    if s.len() == 0 {
        0
    } else {
        decimal_value(s.drop_last()) * 10 + (s.last() - 0x30) as nat
    }
}

/// The number that starts at `pos` and the position behind it. A number is
/// one digit or more, without a leading zero unless it is the single digit 0.
pub open spec fn parse_number(s: Seq<u8>, pos: nat) -> Result<(nat, nat), BencodeParseError> {
    let end = digits_end(s, pos);
    if end == pos {
        if pos >= s.len() {
            Err(BencodeParseError::Truncated)
        } else {
            Err(BencodeParseError::InvalidByte)
        }
    } else if s[pos as int] == DIGIT_ZERO && end - pos > 1 {
        Err(BencodeParseError::InvalidNumber)
    } else {
        Ok((decimal_value(s.subrange(pos as int, end as int)), end))
    }
}

/// The byte string that starts at `pos` and the position behind it:
/// `<length>:<bytes>`.
pub open spec fn parse_byte_string(s: Seq<u8>, pos: nat) -> Result<
    (Seq<u8>, nat),
    BencodeParseError,
> {
    match parse_number(s, pos) {
        Err(e) => Err(e),
        Ok((n, end)) => if end >= s.len() {
            Err(BencodeParseError::Truncated)
        } else if s[end as int] != BYTE_LEN_END {
            Err(BencodeParseError::InvalidByte)
        } else if end + 1 + n > s.len() {
            Err(BencodeParseError::Truncated)
        } else {
            Ok((s.subrange(end as int + 1, end as int + 1 + n as int), end + 1 + n))
        },
    }
}

/// The integer whose `i` stands at `pos`, and the position behind it:
/// `i<number>e` or `i-<number>e`.
pub open spec fn parse_integer(s: Seq<u8>, pos: nat) -> Result<(i64, nat), BencodeParseError> {
    let negative = pos + 1 < s.len() && s[pos as int + 1] == MINUS;
    let start = if negative {
        pos + 2
    } else {
        pos + 1
    };
    match parse_number(s, start) {
        Err(e) => Err(e),
        Ok((n, end)) => if end >= s.len() {
            Err(BencodeParseError::Truncated)
        } else if s[end as int] != BEN_END {
            Err(BencodeParseError::InvalidByte)
        } else if negative {
            if n == 0 || n > 0x8000_0000_0000_0000 {
                Err(BencodeParseError::InvalidNumber)
            } else {
                Ok(((-(n as int)) as i64, end + 1))
            }
        } else {
            if n > 0x7fff_ffff_ffff_ffff {
                Err(BencodeParseError::InvalidNumber)
            } else {
                Ok((n as i64, end + 1))
            }
        },
    }
}

/// The value that starts at `pos` and the position behind it, with lists and
/// dictionaries nested at most `depth` deep.
pub open spec fn parse_value(s: Seq<u8>, pos: nat, depth: nat) -> Result<
    (BencodeValue, nat),
    BencodeParseError,
>
    decreases depth, s.len() - pos, 0nat,
{
    if pos >= s.len() {
        Err(BencodeParseError::Truncated)
    } else if s[pos as int] == INT_START {
        match parse_integer(s, pos) {
            Ok((i, end)) => Ok((BencodeValue::Int(i), end)),
            Err(e) => Err(e),
        }
    } else if is_digit(s[pos as int]) {
        match parse_byte_string(s, pos) {
            Ok((b, end)) => Ok((BencodeValue::Bytes(b), end)),
            Err(e) => Err(e),
        }
    } else if s[pos as int] == LIST_START {
        if depth == 0 {
            Err(BencodeParseError::DepthExceeded)
        } else {
            match parse_items(s, pos + 1, (depth - 1) as nat, Seq::empty()) {
                Ok((l, end)) => Ok((BencodeValue::List(l), end)),
                Err(e) => Err(e),
            }
        }
    } else if s[pos as int] == DICT_START {
        if depth == 0 {
            Err(BencodeParseError::DepthExceeded)
        } else {
            match parse_entries(s, pos + 1, (depth - 1) as nat, Seq::empty()) {
                Ok((d, end)) => Ok((BencodeValue::Dict(d), end)),
                Err(e) => Err(e),
            }
        }
    } else {
        Err(BencodeParseError::InvalidByte)
    }
}

/// The items of a list from `pos` up to its `e`, behind the items `acc` that
/// were read before, and the position behind the `e`.
pub open spec fn parse_items(s: Seq<u8>, pos: nat, depth: nat, acc: Seq<BencodeValue>) -> Result<
    (Seq<BencodeValue>, nat),
    BencodeParseError,
>
    decreases depth, s.len() - pos, 1nat,
{
    if pos >= s.len() {
        Err(BencodeParseError::Truncated)
    } else if s[pos as int] == BEN_END {
        Ok((acc, pos + 1))
    } else {
        match parse_value(s, pos, depth) {
            Err(e) => Err(e),
            Ok((v, next)) => if next <= pos || next > s.len() {
                // a value takes at least one byte, and none behind the input
                Err(BencodeParseError::Truncated)
            } else {
                parse_items(s, next, depth, acc.push(v))
            },
        }
    }
}

/// The entries of a dictionary from `pos` up to its `e`, joined to the
/// entries `acc` that were read before, and the position behind the `e`. Each
/// entry is a byte string as key and a value; it is stored at its place in
/// the order of keys.
pub open spec fn parse_entries(s: Seq<u8>, pos: nat, depth: nat, acc: Entries) -> Result<
    (Entries, nat),
    BencodeParseError,
>
    decreases depth, s.len() - pos, 1nat,
{
    if pos >= s.len() {
        Err(BencodeParseError::Truncated)
    } else if s[pos as int] == BEN_END {
        Ok((acc, pos + 1))
    } else {
        match parse_byte_string(s, pos) {
            Err(e) => Err(e),
            Ok((k, key_end)) => if key_end <= pos || key_end > s.len() {
                // a key takes at least two bytes, and none behind the input
                Err(BencodeParseError::Truncated)
            } else {
                match parse_value(s, key_end, depth) {
                    Err(e) => Err(e),
                    Ok((v, next)) => if lookup_value(acc, k) is Some {
                        Err(BencodeParseError::DuplicateKey)
                    } else if next <= pos || next > s.len() {
                        // a value takes at least one byte, and none behind
                        // the input
                        Err(BencodeParseError::Truncated)
                    } else {
                        parse_entries(s, next, depth, insert_entry(acc, k, v))
                    },
                }
            },
        }
    }
}

/// The value that the whole of `s` is, with nesting of at most `depth`.
pub open spec fn parse_whole(s: Seq<u8>, depth: nat) -> Result<BencodeValue, BencodeParseError> {
    match parse_value(s, 0, depth) {
        Err(e) => Err(e),
        Ok((v, end)) => if end == s.len() {
            Ok(v)
        } else {
            Err(BencodeParseError::TrailingBytes)
        },
    }
}

/// Numbers grow with every digit, so one that is too great stays so.
proof fn lemma_decimal_value_step(s: Seq<u8>, pos: int, i: int)
    requires
        0 <= pos <= i < s.len(),
    ensures
        decimal_value(s.subrange(pos, i + 1)) == decimal_value(s.subrange(pos, i)) * 10 + (s[i]
            - 0x30) as nat,
{
    assert(s.subrange(pos, i + 1).drop_last() =~= s.subrange(pos, i));
    assert(s.subrange(pos, i + 1).last() == s[i]);
}

/// Scans the digits from `pos` on. Returns the position behind them, and
/// their value unless it exceeds `cap`, in which case the flag is set.
fn scan_number(bytes: &[u8], pos: usize, cap: u64) -> (r: (usize, u64, bool))
    requires
        pos <= bytes@.len(),
    ensures
        r.0 == digits_end(bytes@, pos as nat),
        pos <= r.0 <= bytes@.len(),
        r.2 == (decimal_value(bytes@.subrange(pos as int, r.0 as int)) > cap),
        !r.2 ==> r.1 == decimal_value(bytes@.subrange(pos as int, r.0 as int)),
{
    let mut i: usize = pos;
    let mut value: u64 = 0;
    let mut over = false;
    assert(bytes@.subrange(pos as int, pos as int) =~= Seq::<u8>::empty());
    while i < bytes.len() && bytes[i] >= 0x30 && bytes[i] <= 0x39
        invariant
            pos <= i <= bytes.len(),
            digits_end(bytes@, pos as nat) == digits_end(bytes@, i as nat),
            over == (decimal_value(bytes@.subrange(pos as int, i as int)) > cap),
            !over ==> value == decimal_value(bytes@.subrange(pos as int, i as int)),
        decreases bytes.len() - i,
    {
        proof {
            lemma_decimal_value_step(bytes@, pos as int, i as int);
        }
        let digit = (bytes[i] - 0x30) as u128;
        if !over {
            let next = value as u128 * 10 + digit;
            if next > cap as u128 {
                over = true;
            } else {
                value = next as u64;
            }
        }
        i += 1;
    }
    (i, value, over)
}

/// Reads the number at `pos`: see [`parse_number`]. The value is capped as in
/// `scan_number`.
fn read_number(bytes: &[u8], pos: usize, cap: u64) -> (r: Result<
    (usize, u64, bool),
    BencodeParseError,
>)
    requires
        pos <= bytes@.len(),
    ensures
        match parse_number(bytes@, pos as nat) {
            Err(e) => r == Err::<(usize, u64, bool), BencodeParseError>(e),
            Ok((n, end)) => r matches Ok((e, value, over)) && e == end && pos < e <= bytes@.len()
                && over == (n > cap) && (!over ==> value == n),
        },
{
    let (end, value, over) = scan_number(bytes, pos, cap);
    if end == pos {
        if pos >= bytes.len() {
            Err(BencodeParseError::Truncated)
        } else {
            Err(BencodeParseError::InvalidByte)
        }
    } else if bytes[pos] == DIGIT_ZERO && end - pos > 1 {
        Err(BencodeParseError::InvalidNumber)
    } else {
        Ok((end, value, over))
    }
}

/// Reads the byte string at `pos`: see [`parse_byte_string`].
fn read_byte_string<'a>(bytes: &'a [u8], pos: usize) -> (r: Result<
    (&'a [u8], usize),
    BencodeParseError,
>)
    requires
        pos <= bytes@.len(),
    ensures
        match parse_byte_string(bytes@, pos as nat) {
            Err(e) => r == Err::<(&'a [u8], usize), BencodeParseError>(e),
            Ok((b, end)) => r matches Ok((found, e)) && found@ == b && e == end && pos < e
                <= bytes@.len(),
        },
{
    let (end, value, over) = match read_number(bytes, pos, bytes.len() as u64) {
        Ok(found) => found,
        Err(e) => {
            return Err(e);
        },
    };
    if end >= bytes.len() {
        return Err(BencodeParseError::Truncated);
    }
    if bytes[end] != BYTE_LEN_END {
        return Err(BencodeParseError::InvalidByte);
    }
    if over || value > (bytes.len() - end - 1) as u64 {
        return Err(BencodeParseError::Truncated);
    }
    let start = end + 1;
    let stop = start + value as usize;
    Ok((slice_subrange(bytes, start, stop), stop))
}

/// Reads the integer whose `i` stands at `pos`: see [`parse_integer`].
fn read_integer(bytes: &[u8], pos: usize) -> (r: Result<(i64, usize), BencodeParseError>)
    requires
        pos < bytes@.len(),
    ensures
        match parse_integer(bytes@, pos as nat) {
            Err(e) => r == Err::<(i64, usize), BencodeParseError>(e),
            Ok((i, end)) => r == Ok::<(i64, usize), BencodeParseError>((i, end as usize)) && pos
                < end <= bytes@.len(),
        },
{
    let len = bytes.len();
    let negative = pos + 1 < len && bytes[pos + 1] == MINUS;
    let start = if negative {
        pos + 2
    } else {
        pos + 1
    };
    let cap: u64 = if negative {
        0x8000_0000_0000_0000
    } else {
        0x7fff_ffff_ffff_ffff
    };
    let (end, value, over) = match read_number(bytes, start, cap) {
        Ok(found) => found,
        Err(e) => {
            return Err(e);
        },
    };
    if end >= bytes.len() {
        return Err(BencodeParseError::Truncated);
    }
    if bytes[end] != BEN_END {
        return Err(BencodeParseError::InvalidByte);
    }
    if negative {
        if over || value == 0 {
            Err(BencodeParseError::InvalidNumber)
        } else if value == 0x8000_0000_0000_0000 {
            Ok((i64::MIN, end + 1))
        } else {
            Ok((-(value as i64), end + 1))
        }
    } else {
        if over {
            Err(BencodeParseError::InvalidNumber)
        } else {
            Ok((value as i64, end + 1))
        }
    }
}

/// Reads the value at `pos`: see [`parse_value`]. Every dictionary of the
/// value that is returned has its keys in ascending order.
pub fn decode_value(bytes: &[u8], pos: usize, depth: usize) -> (r: Result<
    (Bencode, usize),
    BencodeParseError,
>)
    ensures
        match parse_value(bytes@, pos as nat, depth as nat) {
            Err(e) => r == Err::<(Bencode, usize), BencodeParseError>(e),
            Ok((v, end)) => r matches Ok((found, e)) && found@ == v && e == end && pos < e
                <= bytes@.len() && found.wf(),
        },
    decreases depth, bytes@.len() - pos, 0nat,
{
    if pos >= bytes.len() {
        return Err(BencodeParseError::Truncated);
    }
    let first = bytes[pos];
    if first == INT_START {
        match read_integer(bytes, pos) {
            Ok((i, end)) => Ok((Bencode::Int(i), end)),
            Err(e) => Err(e),
        }
    } else if first >= 0x30 && first <= 0x39 {
        match read_byte_string(bytes, pos) {
            Ok((b, end)) => Ok((Bencode::Bytes(copy_bytes(b)), end)),
            Err(e) => Err(e),
        }
    } else if first == LIST_START {
        if depth == 0 {
            return Err(BencodeParseError::DepthExceeded);
        }
        match decode_items(bytes, pos + 1, depth - 1) {
            Ok((l, end)) => Ok((Bencode::List(l), end)),
            Err(e) => Err(e),
        }
    } else if first == DICT_START {
        if depth == 0 {
            return Err(BencodeParseError::DepthExceeded);
        }
        match decode_entries(bytes, pos + 1, depth - 1) {
            Ok((d, end)) => Ok((Bencode::Dict(d), end)),
            Err(e) => Err(e),
        }
    } else {
        Err(BencodeParseError::InvalidByte)
    }
}

/// Whether every value of `l` is well-formed.
pub open spec fn items_wf(l: Seq<BencodeValue>) -> bool {
    forall|i: int| 0 <= i < l.len() ==> value_wf(#[trigger] l[i])
}

/// Reads the items of a list from `pos` up to its `e`: see [`parse_items`].
fn decode_items(bytes: &[u8], pos: usize, depth: usize) -> (r: Result<
    (Vec<Bencode>, usize),
    BencodeParseError,
>)
    requires
        pos <= bytes@.len(),
    ensures
        match parse_items(bytes@, pos as nat, depth as nat, Seq::empty()) {
            Err(e) => r == Err::<(Vec<Bencode>, usize), BencodeParseError>(e),
            Ok((l, end)) => r matches Ok((found, e)) && items_view(found@) == l && e == end && pos
                < e <= bytes@.len() && items_wf(l),
        },
    decreases depth, bytes@.len() - pos, 1nat,
{
    let mut items: Vec<Bencode> = Vec::new();
    let mut at: usize = pos;
    assert(items_view(items@) =~= Seq::<BencodeValue>::empty());
    loop
        invariant
            pos <= at <= bytes.len(),
            parse_items(bytes@, pos as nat, depth as nat, Seq::empty()) == parse_items(
                bytes@,
                at as nat,
                depth as nat,
                items_view(items@),
            ),
            items_wf(items_view(items@)),
        decreases bytes.len() - at,
    {
        if at >= bytes.len() {
            return Err(BencodeParseError::Truncated);
        }
        if bytes[at] == BEN_END {
            return Ok((items, at + 1));
        }
        match decode_value(bytes, at, depth) {
            Err(e) => {
                return Err(e);
            },
            Ok((v, next)) => {
                let ghost before = items_view(items@);
                items.push(v);
                proof {
                    assert(items_view(items@) =~= before.push(v@));
                }
                at = next;
            },
        }
    }
}

/// Reads the entries of a dictionary from `pos` up to its `e`: see
/// [`parse_entries`].
fn decode_entries(bytes: &[u8], pos: usize, depth: usize) -> (r: Result<
    (Vec<(Vec<u8>, Bencode)>, usize),
    BencodeParseError,
>)
    requires
        pos <= bytes@.len(),
    ensures
        match parse_entries(bytes@, pos as nat, depth as nat, Seq::empty()) {
            Err(e) => r == Err::<(Vec<(Vec<u8>, Bencode)>, usize), BencodeParseError>(e),
            Ok((d, end)) => r matches Ok((found, e)) && entries_view(found@) == d && e == end
                && pos < e <= bytes@.len() && value_wf(BencodeValue::Dict(d)),
        },
    decreases depth, bytes@.len() - pos, 1nat,
{
    let mut entries: Vec<(Vec<u8>, Bencode)> = Vec::new();
    let mut at: usize = pos;
    assert(entries_view(entries@) =~= Seq::<(Seq<u8>, BencodeValue)>::empty());
    loop
        invariant
            pos <= at <= bytes.len(),
            parse_entries(bytes@, pos as nat, depth as nat, Seq::empty()) == parse_entries(
                bytes@,
                at as nat,
                depth as nat,
                entries_view(entries@),
            ),
            value_wf(BencodeValue::Dict(entries_view(entries@))),
        decreases bytes.len() - at,
    {
        if at >= bytes.len() {
            return Err(BencodeParseError::Truncated);
        }
        if bytes[at] == BEN_END {
            return Ok((entries, at + 1));
        }
        let (key, key_end) = match read_byte_string(bytes, at) {
            Ok(found) => found,
            Err(e) => {
                return Err(e);
            },
        };
        match decode_value(bytes, key_end, depth) {
            Err(e) => {
                return Err(e);
            },
            Ok((v, next)) => {
                if entries_find(&entries, key).is_some() {
                    return Err(BencodeParseError::DuplicateKey);
                }
                proof {
                    lemma_insert_wf(entries_view(entries@), key@, v@);
                }
                entries_insert(&mut entries, copy_bytes(key), v);
                at = next;
            },
        }
    }
}

impl Bencode {
    /// Reads the value that the whole of `bytes` is: see [`parse_whole`].
    /// Every dictionary of the value has its keys in ascending order.
    pub fn decode(bytes: &[u8]) -> (r: Result<Bencode, BencodeParseError>)
        ensures
            match parse_whole(bytes@, MAX_DEPTH as nat) {
                Err(e) => r == Err::<Bencode, BencodeParseError>(e),
                Ok(v) => r matches Ok(found) && found@ == v && found.wf(),
            },
    {
        match decode_value(bytes, 0, MAX_DEPTH) {
            Err(e) => Err(e),
            Ok((value, end)) => {
                if end == bytes.len() {
                    Ok(value)
                } else {
                    Err(BencodeParseError::TrailingBytes)
                }
            },
        }
    }
}

} // verus!
