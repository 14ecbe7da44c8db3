//! Texts as keys and as values: a text is stored as the bytes of its UTF-8
//! encoding.

use crate::bencode::value::{Bencode, BencodeValue};
use crate::util::convert::copy_bytes;
use vstd::prelude::*;
use vstd::string::*;
use vstd::utf8::{decode_utf8, encode_utf8, valid_utf8};

verus! {

/// The bytes of a key that is given as text.
pub open spec fn key_of(key: &str) -> Seq<u8> {
    encode_utf8(key@)
}

/// The byte string that holds a text.
pub open spec fn text_model(text: Seq<char>) -> BencodeValue {
    BencodeValue::Bytes(encode_utf8(text))
}

/// The bytes of a key that is given as text.
pub fn key_bytes(key: &str) -> (r: Vec<u8>)
    ensures
        r@ == key_of(key),
{
    copy_bytes(key.as_bytes())
}

/// The byte string that holds a text.
pub fn text_value(text: &str) -> (r: Bencode)
    ensures
        r@ == text_model(text@),
{
    Bencode::Bytes(copy_bytes(text.as_bytes()))
}

/// `core::str::from_utf8`: the text that the bytes encode, where they are
/// valid UTF-8, and nothing otherwise.
#[verifier::external_body]
pub(crate) fn str_from_utf8(bytes: &[u8]) -> (r: Option<&str>)
    ensures
        r is Some <==> valid_utf8(bytes@),
        r matches Some(s) ==> s@ == decode_utf8(bytes@),
{
    match core::str::from_utf8(bytes) {
        Ok(s) => Some(s),
        Err(_) => None,
    }
}

/// The text that a value holds: that of a byte string that is valid UTF-8.
pub open spec fn text_of(v: BencodeValue) -> Option<Seq<char>> {
    match v {
        BencodeValue::Bytes(b) => if valid_utf8(b) {
            Some(decode_utf8(b))
        } else {
            None
        },
        _ => None,
    }
}

/// The text that `value` holds, where it is a byte string of valid UTF-8.
pub fn value_text(value: &Bencode) -> (r: Option<&str>)
    ensures
        r is Some <==> text_of(value@) is Some,
        r matches Some(s) ==> text_of(value@) == Some(s@),
{
    match value.as_bytes() {
        Some(bytes) => str_from_utf8(bytes),
        None => None,
    }
}

} // verus!
