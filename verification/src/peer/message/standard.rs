//! The bodies of the standard messages that have one.

use crate::peer::message::u32_to_usize;
use crate::util::convert::{
    be_bytes,
    copy_bytes,
    lemma_be_bytes_injective,
    lemma_be_bytes_len,
    lemma_be_bytes_of_value,
    lemma_concat_parts,
    lemma_radix_pow_values,
    read_u32_be,
    write_u32_be,
};
use crate::util::error::FramingError;
use vstd::prelude::*;
use vstd::slice::slice_subrange;

verus! {

pub const BITS_PER_BYTE: u32 = 8;

/// Tells that the sender has the piece `piece_index`.
#[derive(Copy, Clone, Debug, Hash, PartialEq, Eq, Structural)]
pub struct HaveMessage {
    pub piece_index: u32,
}

impl HaveMessage {
    /// The body on the wire: the index of the piece.
    pub open spec fn wire(self) -> Seq<u8> {
        be_bytes(self.piece_index as nat, 4)
    }

    pub fn new(piece_index: u32) -> (r: HaveMessage)
        ensures
            r.piece_index == piece_index,
    {
        HaveMessage { piece_index: piece_index }
    }

    /// Reads the body from the start of `bytes`: four bytes. Fewer are a
    /// short read.
    pub fn from_bytes(bytes: &[u8]) -> (r: Result<(HaveMessage, usize), FramingError>)
        ensures
            bytes@.len() < 4 ==> r == Err::<(HaveMessage, usize), FramingError>(
                FramingError::ShortRead,
            ),
            bytes@.len() >= 4 ==> (r matches Ok((message, n)) && n == 4 && message.wire()
                == bytes@.subrange(0, 4)),
    {
        parse_have(bytes)
    }

    pub fn piece_index(&self) -> (r: u32)
        ensures
            r == self.piece_index,
    {
        self.piece_index
    }

    /// Appends the body.
    pub fn write_bytes(&self, out: &mut Vec<u8>)
        ensures
            final(out)@ == old(out)@ + self.wire(),
    {
        write_u32_be(out, self.piece_index);
    }
}

fn parse_have(bytes: &[u8]) -> (r: Result<(HaveMessage, usize), FramingError>)
    ensures
        bytes@.len() < 4 ==> r == Err::<(HaveMessage, usize), FramingError>(FramingError::ShortRead),
        bytes@.len() >= 4 ==> (r matches Ok((message, n)) && n == 4 && message.wire()
            == bytes@.subrange(0, 4)),
{
    match read_u32_be(bytes, 0) {
        Some(index) => {
            proof {
                lemma_be_bytes_of_value(bytes@.subrange(0, 4));
            }
            Ok((HaveMessage::new(index), 4))
        },
        None => Err(FramingError::ShortRead),
    }
}

// ----------------------------------------------------------------------------//

/// The pieces that the sender has, one bit per piece, the first piece in the
/// most significant bit of the first byte.
#[derive(Clone, Debug, Hash, PartialEq, Eq)]
pub struct BitFieldMessage {
    pub bytes: Vec<u8>,
}

impl View for BitFieldMessage {
    type V = Seq<u8>;

    open spec fn view(&self) -> Seq<u8> {
        self.bytes@
    }
}

/// The number of bytes that hold `total_pieces` bits.
pub open spec fn bitfield_len(total_pieces: u32) -> nat {
    ((total_pieces + 7) / 8) as nat
}

impl BitFieldMessage {
    /// The bitfield for `total_pieces` pieces of which the sender has none.
    pub fn new(total_pieces: u32) -> (r: BitFieldMessage)
        ensures
            r@ == Seq::new(bitfield_len(total_pieces), |i: int| 0u8),
    {
        // total_pieces is the number of bits we expect
        let bytes_needed = if total_pieces % BITS_PER_BYTE == 0 {
            total_pieces / BITS_PER_BYTE
        } else {
            (total_pieces / BITS_PER_BYTE) + 1
        };
        let len = u32_to_usize(bytes_needed);
        let mut bytes: Vec<u8> = Vec::new();
        while bytes.len() < len
            invariant
                bytes@.len() <= len,
                forall|i: int| 0 <= i < bytes@.len() ==> bytes@[i] == 0,
            decreases len - bytes.len(),
        {
            bytes.push(0u8);
        }
        assert(bytes@ =~= Seq::new(bitfield_len(total_pieces), |i: int| 0u8));
        BitFieldMessage { bytes }
    }

    /// Reads a bitfield of `len` bytes from the start of `bytes`. Fewer bytes
    /// are a short read.
    pub fn from_bytes(bytes: &[u8], len: u32) -> (r: Result<(BitFieldMessage, usize), FramingError>)
        ensures
            bytes@.len() < len ==> r is Err && r->Err_0 == FramingError::ShortRead,
            bytes@.len() >= len ==> (r matches Ok((message, n)) && n == len && message@
                == bytes@.subrange(0, len as int)),
    {
        parse_bitfield(bytes, u32_to_usize(len))
    }

    /// The bytes of the bitfield.
    pub fn as_bytes(&self) -> (r: &[u8])
        ensures
            r@ == self@,
    {
        self.bytes.as_slice()
    }
}

fn parse_bitfield(bytes: &[u8], len: usize) -> (r: Result<(BitFieldMessage, usize), FramingError>)
    ensures
        bytes@.len() < len ==> r is Err && r->Err_0 == FramingError::ShortRead,
        bytes@.len() >= len ==> (r matches Ok((message, n)) && n == len && message@
            == bytes@.subrange(0, len as int)),
{
    if bytes.len() < len {
        return Err(FramingError::ShortRead);
    }
    Ok((BitFieldMessage { bytes: copy_bytes(slice_subrange(bytes, 0, len)) }, len))
}

// ----------------------------------------------------------------------------//

/// The three numbers of a request or a cancel on the wire, four bytes each.
pub open spec fn block_wire(piece_index: u32, block_offset: u32, block_length: usize) -> Seq<u8> {
    be_bytes(piece_index as nat, 4) + be_bytes(block_offset as nat, 4) + be_bytes(
        block_length as nat,
        4,
    )
}

/// Reads the three numbers of a request or a cancel.
fn parse_block(bytes: &[u8]) -> (r: Option<(u32, u32, usize)>)
    ensures
        r is Some <==> bytes@.len() >= 12,
        r matches Some((index, offset, length)) ==> length <= u32::MAX && block_wire(
            index,
            offset,
            length,
        ) == bytes@.subrange(0, 12),
{
    let index = match read_u32_be(bytes, 0) {
        Some(v) => v,
        None => {
            return None;
        },
    };
    let offset = match read_u32_be(bytes, 4) {
        Some(v) => v,
        None => {
            return None;
        },
    };
    let length = match read_u32_be(bytes, 8) {
        Some(v) => v,
        None => {
            return None;
        },
    };
    proof {
        lemma_be_bytes_of_value(bytes@.subrange(0, 4));
        lemma_be_bytes_of_value(bytes@.subrange(4, 8));
        lemma_be_bytes_of_value(bytes@.subrange(8, 12));
        assert(block_wire(index, offset, length as usize) =~= bytes@.subrange(0, 12));
    }
    Some((index, offset, u32_to_usize(length)))
}

/// The three numbers of a request or a cancel are determined by their bytes.
pub proof fn lemma_block_wire_injective(a: (u32, u32, usize), b: (u32, u32, usize))
    requires
        a.2 <= u32::MAX,
        b.2 <= u32::MAX,
        block_wire(a.0, a.1, a.2) == block_wire(b.0, b.1, b.2),
    ensures
        a == b,
{
    lemma_radix_pow_values();
    lemma_be_bytes_len(a.0 as nat, 4);
    lemma_be_bytes_len(a.1 as nat, 4);
    lemma_be_bytes_len(a.2 as nat, 4);
    lemma_be_bytes_len(b.0 as nat, 4);
    lemma_be_bytes_len(b.1 as nat, 4);
    lemma_be_bytes_len(b.2 as nat, 4);
    lemma_concat_parts(
        be_bytes(a.0 as nat, 4) + be_bytes(a.1 as nat, 4),
        be_bytes(a.2 as nat, 4),
        be_bytes(b.0 as nat, 4) + be_bytes(b.1 as nat, 4),
        be_bytes(b.2 as nat, 4),
    );
    lemma_concat_parts(
        be_bytes(a.0 as nat, 4),
        be_bytes(a.1 as nat, 4),
        be_bytes(b.0 as nat, 4),
        be_bytes(b.1 as nat, 4),
    );
    lemma_be_bytes_injective(a.0 as nat, b.0 as nat, 4);
    lemma_be_bytes_injective(a.1 as nat, b.1 as nat, 4);
    lemma_be_bytes_injective(a.2 as nat, b.2 as nat, 4);
}

/// Asks for the block of `block_length` bytes at `block_offset` of the piece
/// `piece_index`.
#[derive(Copy, Clone, Debug, Hash, PartialEq, Eq, Structural)]
pub struct RequestMessage {
    pub piece_index: u32,
    pub block_offset: u32,
    pub block_length: usize,
}

impl RequestMessage {
    /// The length of the block fits the four bytes that it has on the wire.
    pub open spec fn wf(self) -> bool {
        self.block_length <= u32::MAX
    }

    /// The body on the wire.
    pub open spec fn wire(self) -> Seq<u8> {
        block_wire(self.piece_index, self.block_offset, self.block_length)
    }

    pub fn new(piece_index: u32, block_offset: u32, block_length: usize) -> (r: RequestMessage)
        ensures
            r == (RequestMessage { piece_index, block_offset, block_length }),
    {
        RequestMessage {
            piece_index: piece_index,
            block_offset: block_offset,
            block_length: block_length,
        }
    }

    /// Reads the body from the start of `bytes`: twelve bytes. Fewer are a
    /// short read.
    pub fn from_bytes(bytes: &[u8]) -> (r: Result<(RequestMessage, usize), FramingError>)
        ensures
            bytes@.len() < 12 ==> r == Err::<(RequestMessage, usize), FramingError>(
                FramingError::ShortRead,
            ),
            bytes@.len() >= 12 ==> (r matches Ok((message, n)) && n == 12 && message.wf()
                && message.wire() == bytes@.subrange(0, 12)),
    {
        parse_request(bytes)
    }

    pub fn piece_index(&self) -> (r: u32)
        ensures
            r == self.piece_index,
    {
        self.piece_index
    }

    pub fn block_offset(&self) -> (r: u32)
        ensures
            r == self.block_offset,
    {
        self.block_offset
    }

    pub fn block_length(&self) -> (r: usize)
        ensures
            r == self.block_length,
    {
        self.block_length
    }

    /// Appends the body.
    pub fn write_bytes(&self, out: &mut Vec<u8>)
        requires
            self.wf(),
        ensures
            final(out)@ == old(out)@ + self.wire(),
    {
        write_u32_be(out, self.piece_index);
        write_u32_be(out, self.block_offset);
        write_u32_be(out, self.block_length as u32);
        assert(out@ =~= old(out)@ + self.wire());
    }
}

fn parse_request(bytes: &[u8]) -> (r: Result<(RequestMessage, usize), FramingError>)
    ensures
        bytes@.len() < 12 ==> r == Err::<(RequestMessage, usize), FramingError>(
            FramingError::ShortRead,
        ),
        bytes@.len() >= 12 ==> (r matches Ok((message, n)) && n == 12 && message.wf()
            && message.wire() == bytes@.subrange(0, 12)),
{
    match parse_block(bytes) {
        Some((index, offset, length)) => Ok((RequestMessage::new(index, offset, length), 12)),
        None => Err(FramingError::ShortRead),
    }
}

// ----------------------------------------------------------------------------//

/// Heads a block of `block_length` bytes at `block_offset` of the piece
/// `piece_index`. The bytes of the block follow the message.
#[derive(Copy, Clone, Debug, Hash, PartialEq, Eq, Structural)]
pub struct PieceMessage {
    pub piece_index: u32,
    pub block_offset: u32,
    pub block_length: usize,
}

impl PieceMessage {
    /// What stands before the block on the wire: index and offset.
    pub open spec fn wire(self) -> Seq<u8> {
        be_bytes(self.piece_index as nat, 4) + be_bytes(self.block_offset as nat, 4)
    }

    pub fn new(piece_index: u32, block_offset: u32, block_length: usize) -> (r: PieceMessage)
        ensures
            r == (PieceMessage { piece_index, block_offset, block_length }),
    {
        PieceMessage {
            piece_index: piece_index,
            block_offset: block_offset,
            block_length: block_length,
        }
    }

    /// Reads index and offset from the start of `bytes`, eight bytes, and
    /// takes `len` as the length of the block that follows them. Fewer than
    /// eight bytes are a short read.
    pub fn from_bytes(bytes: &[u8], len: u32) -> (r: Result<(PieceMessage, usize), FramingError>)
        ensures
            bytes@.len() < 8 ==> r == Err::<(PieceMessage, usize), FramingError>(
                FramingError::ShortRead,
            ),
            bytes@.len() >= 8 ==> (r matches Ok((message, n)) && n == 8 && message.block_length
                == len && message.wire() == bytes@.subrange(0, 8)),
    {
        parse_piece(bytes, u32_to_usize(len))
    }

    pub fn piece_index(&self) -> (r: u32)
        ensures
            r == self.piece_index,
    {
        self.piece_index
    }

    pub fn block_offset(&self) -> (r: u32)
        ensures
            r == self.block_offset,
    {
        self.block_offset
    }

    pub fn block_length(&self) -> (r: usize)
        ensures
            r == self.block_length,
    {
        self.block_length
    }

    /// Appends index and offset.
    pub fn write_bytes(&self, out: &mut Vec<u8>)
        ensures
            final(out)@ == old(out)@ + self.wire(),
    {
        write_u32_be(out, self.piece_index);
        write_u32_be(out, self.block_offset);
        assert(out@ =~= old(out)@ + self.wire());
    }
}

fn parse_piece(bytes: &[u8], len: usize) -> (r: Result<(PieceMessage, usize), FramingError>)
    ensures
        bytes@.len() < 8 ==> r == Err::<(PieceMessage, usize), FramingError>(
            FramingError::ShortRead,
        ),
        bytes@.len() >= 8 ==> (r matches Ok((message, n)) && n == 8 && message.block_length == len
            && message.wire() == bytes@.subrange(0, 8)),
{
    let piece_index = match read_u32_be(bytes, 0) {
        Some(v) => v,
        None => {
            return Err(FramingError::ShortRead);
        },
    };
    let block_offset = match read_u32_be(bytes, 4) {
        Some(v) => v,
        None => {
            return Err(FramingError::ShortRead);
        },
    };
    let message = PieceMessage::new(piece_index, block_offset, len);
    proof {
        lemma_be_bytes_of_value(bytes@.subrange(0, 4));
        lemma_be_bytes_of_value(bytes@.subrange(4, 8));
        assert(message.wire() =~= bytes@.subrange(0, 8));
    }
    Ok((message, 8))
}

// ----------------------------------------------------------------------------//

/// Takes back the request for the block of `block_length` bytes at
/// `block_offset` of the piece `piece_index`.
#[derive(Copy, Clone, Debug, Hash, PartialEq, Eq, Structural)]
pub struct CancelMessage {
    pub piece_index: u32,
    pub block_offset: u32,
    pub block_length: usize,
}

impl CancelMessage {
    /// The length of the block fits the four bytes that it has on the wire.
    pub open spec fn wf(self) -> bool {
        self.block_length <= u32::MAX
    }

    /// The body on the wire.
    pub open spec fn wire(self) -> Seq<u8> {
        block_wire(self.piece_index, self.block_offset, self.block_length)
    }

    pub fn new(piece_index: u32, block_offset: u32, block_length: usize) -> (r: CancelMessage)
        ensures
            r == (CancelMessage { piece_index, block_offset, block_length }),
    {
        CancelMessage {
            piece_index: piece_index,
            block_offset: block_offset,
            block_length: block_length,
        }
    }

    /// Reads the body from the start of `bytes`: twelve bytes. Fewer are a
    /// short read.
    pub fn from_bytes(bytes: &[u8]) -> (r: Result<(CancelMessage, usize), FramingError>)
        ensures
            bytes@.len() < 12 ==> r == Err::<(CancelMessage, usize), FramingError>(
                FramingError::ShortRead,
            ),
            bytes@.len() >= 12 ==> (r matches Ok((message, n)) && n == 12 && message.wf()
                && message.wire() == bytes@.subrange(0, 12)),
    {
        parse_cancel(bytes)
    }

    pub fn piece_index(&self) -> (r: u32)
        ensures
            r == self.piece_index,
    {
        self.piece_index
    }

    pub fn block_offset(&self) -> (r: u32)
        ensures
            r == self.block_offset,
    {
        self.block_offset
    }

    pub fn block_length(&self) -> (r: usize)
        ensures
            r == self.block_length,
    {
        self.block_length
    }

    /// Appends the body.
    pub fn write_bytes(&self, out: &mut Vec<u8>)
        requires
            self.wf(),
        ensures
            final(out)@ == old(out)@ + self.wire(),
    {
        write_u32_be(out, self.piece_index);
        write_u32_be(out, self.block_offset);
        write_u32_be(out, self.block_length as u32);
        assert(out@ =~= old(out)@ + self.wire());
    }
}

fn parse_cancel(bytes: &[u8]) -> (r: Result<(CancelMessage, usize), FramingError>)
    ensures
        bytes@.len() < 12 ==> r == Err::<(CancelMessage, usize), FramingError>(
            FramingError::ShortRead,
        ),
        bytes@.len() >= 12 ==> (r matches Ok((message, n)) && n == 12 && message.wf()
            && message.wire() == bytes@.subrange(0, 12)),
{
    match parse_block(bytes) {
        Some((index, offset, length)) => Ok((CancelMessage::new(index, offset, length), 12)),
        None => Err(FramingError::ShortRead),
    }
}

} // verus!
