//! Typed access to the entries of a dictionary.
//!
//! Every lookup names the kind of value it expects. A key that is missing, or
//! that holds a value of another kind, gives an error that carries the key
//! and the kind.

use crate::bencode::value::{items_view, lookup_value, Bencode, BencodeValue, Entries};
use vstd::prelude::*;

verus! {

/// The kinds of value that a lookup can expect.
#[derive(Copy, Clone, Debug, PartialEq, Eq, Structural)]
pub enum ExpectedKind {
    Int,
    Bytes,
    List,
    Dict,
}

/// What went wrong with a lookup.
#[derive(Copy, Clone, Debug, PartialEq, Eq, Structural)]
pub enum ConvertErrorKind {
    /// The dictionary has no such key.
    MissingKey,
    /// The key holds a value that is not of the kind expected.
    WrongType(ExpectedKind),
}

/// A failed lookup: what went wrong, and under which key.
#[derive(Clone, Debug, PartialEq, Eq)]
pub struct BencodeConvertError {
    pub kind: ConvertErrorKind,
    pub key: Vec<u8>,
}

/// A failed lookup as the model sees it.
pub struct ConvertFault {
    pub kind: ConvertErrorKind,
    pub key: Seq<u8>,
}

impl View for BencodeConvertError {
    type V = ConvertFault;

    open spec fn view(&self) -> ConvertFault {
        ConvertFault { kind: self.kind, key: self.key@ }
    }
}

impl BencodeConvertError {
    /// What went wrong.
    pub fn kind(&self) -> (r: ConvertErrorKind)
        ensures
            r == self.kind,
    {
        self.kind
    }

    /// The key that was looked up.
    pub fn key(&self) -> (r: &[u8])
        ensures
            r@ == self.key@,
    {
        self.key.as_slice()
    }
}

/// The value under `key` of `v`, where `v` is a dictionary that has the key.
pub open spec fn entry_of(v: BencodeValue, key: Seq<u8>) -> Option<BencodeValue> {
    match v {
        BencodeValue::Dict(d) => lookup_value(d, key),
        _ => None,
    }
}

/// The fault of a missing key.
pub open spec fn missing(key: Seq<u8>) -> ConvertFault {
    ConvertFault { kind: ConvertErrorKind::MissingKey, key }
}

/// The fault of a value of the wrong kind.
pub open spec fn wrong_type(key: Seq<u8>, expected: ExpectedKind) -> ConvertFault {
    ConvertFault { kind: ConvertErrorKind::WrongType(expected), key }
}

/// The integer under `key`, or why there is none.
pub open spec fn int_at(v: BencodeValue, key: Seq<u8>) -> Result<i64, ConvertFault> {
    match entry_of(v, key) {
        None => Err(missing(key)),
        Some(BencodeValue::Int(i)) => Ok(i),
        Some(_) => Err(wrong_type(key, ExpectedKind::Int)),
    }
}

/// The byte string under `key`, or why there is none.
pub open spec fn bytes_at(v: BencodeValue, key: Seq<u8>) -> Result<Seq<u8>, ConvertFault> {
    match entry_of(v, key) {
        None => Err(missing(key)),
        Some(BencodeValue::Bytes(b)) => Ok(b),
        Some(_) => Err(wrong_type(key, ExpectedKind::Bytes)),
    }
}

/// The list under `key`, or why there is none.
pub open spec fn list_at(v: BencodeValue, key: Seq<u8>) -> Result<Seq<BencodeValue>, ConvertFault> {
    match entry_of(v, key) {
        None => Err(missing(key)),
        Some(BencodeValue::List(l)) => Ok(l),
        Some(_) => Err(wrong_type(key, ExpectedKind::List)),
    }
}

/// The dictionary under `key`, or why there is none.
pub open spec fn dict_at(v: BencodeValue, key: Seq<u8>) -> Result<Entries, ConvertFault> {
    match entry_of(v, key) {
        None => Err(missing(key)),
        Some(BencodeValue::Dict(d)) => Ok(d),
        Some(_) => Err(wrong_type(key, ExpectedKind::Dict)),
    }
}

/// An error for `key`.
fn convert_error(kind: ConvertErrorKind, key: &[u8]) -> (r: BencodeConvertError)
    ensures
        r@ == (ConvertFault { kind, key: key@ }),
{
    BencodeConvertError { kind, key: crate::util::convert::copy_bytes(key) }
}

/// Look up the value under `key` in the dictionary `dict`.
pub fn lookup<'a>(dict: &'a Bencode, key: &[u8]) -> (r: Result<&'a Bencode, BencodeConvertError>)
    ensures
        match entry_of(dict@, key@) {
            Some(v) => r matches Ok(found) && found@ == v,
            None => r matches Err(e) && e@ == missing(key@),
        },
{
    match dict.lookup(key) {
        Some(found) => Ok(found),
        None => Err(convert_error(ConvertErrorKind::MissingKey, key)),
    }
}

/// Take `value` as an integer; `error_key` names it in the error.
pub fn convert_int(value: &Bencode, error_key: &[u8]) -> (r: Result<i64, BencodeConvertError>)
    ensures
        match value@ {
            BencodeValue::Int(i) => r == Ok::<i64, BencodeConvertError>(i),
            _ => r matches Err(e) && e@ == wrong_type(error_key@, ExpectedKind::Int),
        },
{
    match value.as_int() {
        Some(i) => Ok(i),
        None => Err(convert_error(ConvertErrorKind::WrongType(ExpectedKind::Int), error_key)),
    }
}

/// Take `value` as a byte string; `error_key` names it in the error.
pub fn convert_bytes<'a>(value: &'a Bencode, error_key: &[u8]) -> (r: Result<
    &'a [u8],
    BencodeConvertError,
>)
    ensures
        match value@ {
            BencodeValue::Bytes(b) => r matches Ok(found) && found@ == b,
            _ => r matches Err(e) && e@ == wrong_type(error_key@, ExpectedKind::Bytes),
        },
{
    match value.as_bytes() {
        Some(b) => Ok(b),
        None => Err(convert_error(ConvertErrorKind::WrongType(ExpectedKind::Bytes), error_key)),
    }
}

/// Take `value` as a list; `error_key` names it in the error.
pub fn convert_list<'a>(value: &'a Bencode, error_key: &[u8]) -> (r: Result<
    &'a Vec<Bencode>,
    BencodeConvertError,
>)
    ensures
        match value@ {
            BencodeValue::List(l) => r matches Ok(found) && items_view(found@) == l,
            _ => r matches Err(e) && e@ == wrong_type(error_key@, ExpectedKind::List),
        },
{
    match value.as_list() {
        Some(l) => Ok(l),
        None => Err(convert_error(ConvertErrorKind::WrongType(ExpectedKind::List), error_key)),
    }
}

/// Take `value` as a dictionary; `error_key` names it in the error.
pub fn convert_dict<'a>(value: &'a Bencode, error_key: &[u8]) -> (r: Result<
    &'a Bencode,
    BencodeConvertError,
>)
    ensures
        match value@ {
            BencodeValue::Dict(d) => r matches Ok(found) && found@ == value@,
            _ => r matches Err(e) && e@ == wrong_type(error_key@, ExpectedKind::Dict),
        },
{
    match value {
        Bencode::Dict(_) => Ok(value),
        _ => Err(convert_error(ConvertErrorKind::WrongType(ExpectedKind::Dict), error_key)),
    }
}

/// Look up the integer under `key`.
pub fn lookup_and_convert_int(dict: &Bencode, key: &[u8]) -> (r: Result<i64, BencodeConvertError>)
    ensures
        match int_at(dict@, key@) {
            Ok(i) => r == Ok::<i64, BencodeConvertError>(i),
            Err(fault) => r matches Err(e) && e@ == fault,
        },
{
    match lookup(dict, key) {
        Ok(value) => convert_int(value, key),
        Err(e) => Err(e),
    }
}

/// Look up the byte string under `key`.
pub fn lookup_and_convert_bytes<'a>(dict: &'a Bencode, key: &[u8]) -> (r: Result<
    &'a [u8],
    BencodeConvertError,
>)
    ensures
        match bytes_at(dict@, key@) {
            Ok(b) => r matches Ok(found) && found@ == b,
            Err(fault) => r matches Err(e) && e@ == fault,
        },
{
    match lookup(dict, key) {
        Ok(value) => convert_bytes(value, key),
        Err(e) => Err(e),
    }
}

/// Look up the list under `key`.
pub fn lookup_and_convert_list<'a>(dict: &'a Bencode, key: &[u8]) -> (r: Result<
    &'a Vec<Bencode>,
    BencodeConvertError,
>)
    ensures
        match list_at(dict@, key@) {
            Ok(l) => r matches Ok(found) && items_view(found@) == l,
            Err(fault) => r matches Err(e) && e@ == fault,
        },
{
    match lookup(dict, key) {
        Ok(value) => convert_list(value, key),
        Err(e) => Err(e),
    }
}

/// Look up the dictionary under `key`.
pub fn lookup_and_convert_dict<'a>(dict: &'a Bencode, key: &[u8]) -> (r: Result<
    &'a Bencode,
    BencodeConvertError,
>)
    ensures
        match dict_at(dict@, key@) {
            Ok(d) => r matches Ok(found) && found@ == BencodeValue::Dict(d),
            Err(fault) => r matches Err(e) && e@ == fault,
        },
{
    match lookup(dict, key) {
        Ok(value) => convert_dict(value, key),
        Err(e) => Err(e),
    }
}

} // verus!
