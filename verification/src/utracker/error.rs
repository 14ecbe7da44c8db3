//! The error that a tracker answers with.
//!
//! It is the action 3, the transaction id of the request, and a message as
//! text.

use crate::bencode::text::str_from_utf8;
use crate::util::convert::{be_bytes, extend_bytes, field_at, read_u32_be, write_u32_be};
use crate::util::error::FramingError;
use vstd::prelude::*;
use vstd::slice::slice_subrange;
use vstd::string::*;
use vstd::utf8::{decode_utf8, encode_utf8, valid_utf8};

verus! {

/// Action of an error response.
pub const ERROR_ACTION_ID: u32 = 3;

/// Why a tracker refused a request: the tracker's own words.
#[derive(Clone, Debug, PartialEq, Eq)]
pub struct ErrorResponse {
    pub transaction_id: u32,
    pub message: String,
}

impl ErrorResponse {
    /// The response on the wire.
    pub open spec fn wire(&self) -> Seq<u8> {
        be_bytes(ERROR_ACTION_ID as nat, 4) + be_bytes(self.transaction_id as nat, 4)
            + encode_utf8(self.message@)
    }

    /// Create a new `ErrorResponse`.
    pub fn new(transaction_id: u32, message: &str) -> (r: ErrorResponse)
        ensures
            r.transaction_id == transaction_id,
            r.message@ == message@,
    {
        ErrorResponse { transaction_id, message: String::from_str(message) }
    }

    /// The transaction that the error belongs to.
    pub fn transaction_id(&self) -> (r: u32)
        ensures
            r == self.transaction_id,
    {
        self.transaction_id
    }

    /// The tracker's words.
    pub fn message(&self) -> (r: &str)
        ensures
            r@ == self.message@,
    {
        self.message.as_str()
    }

    /// Appends the response.
    pub fn write_bytes(&self, out: &mut Vec<u8>)
        ensures
            final(out)@ == old(out)@ + self.wire(),
    {
        write_u32_be(out, ERROR_ACTION_ID);
        write_u32_be(out, self.transaction_id);
        extend_bytes(out, self.message.as_str().as_bytes());
        assert(out@ =~= old(out)@ + self.wire());
    }

    /// Reads the error response that the whole of `bytes` is. Fewer than
    /// eight bytes are a short read; another action than 3, or a message that
    /// is not UTF-8, is an invalid value.
    pub fn from_bytes(bytes: &[u8]) -> (r: Result<ErrorResponse, FramingError>)
        ensures
            bytes@.len() < 8 ==> r == Err::<ErrorResponse, FramingError>(FramingError::ShortRead),
            bytes@.len() >= 8 && (field_at(bytes@, 0, 4) != Some(ERROR_ACTION_ID as nat)
                || !valid_utf8(bytes@.subrange(8, bytes@.len() as int))) ==> r == Err::<
                ErrorResponse,
                FramingError,
            >(FramingError::InvalidValue),
            bytes@.len() >= 8 && field_at(bytes@, 0, 4) == Some(ERROR_ACTION_ID as nat)
                && valid_utf8(bytes@.subrange(8, bytes@.len() as int)) ==> (r matches Ok(response)
                && field_at(bytes@, 4, 4) == Some(response.transaction_id as nat)
                && response.message@ == decode_utf8(bytes@.subrange(8, bytes@.len() as int))),
    {
        let action = match read_u32_be(bytes, 0) {
            Some(action) => action,
            None => {
                return Err(FramingError::ShortRead);
            },
        };
        let transaction_id = match read_u32_be(bytes, 4) {
            Some(id) => id,
            None => {
                return Err(FramingError::ShortRead);
            },
        };
        if action != ERROR_ACTION_ID {
            return Err(FramingError::InvalidValue);
        }
        match str_from_utf8(slice_subrange(bytes, 8, bytes.len())) {
            Some(message) => Ok(ErrorResponse::new(transaction_id, message)),
            None => Err(FramingError::InvalidValue),
        }
    }
}

} // verus!
