//! Blocks of memory with the place in a torrent that they belong to.

use crate::util::bt::{InfoHash, ShaHash};
use vstd::prelude::*;

verus! {

/// `bytes::Bytes`: a shared, immutable run of bytes.
#[verifier::external_type_specification]
#[verifier::external_body]
pub struct ExBytes(bytes::Bytes);

/// `bytes::BytesMut`: a uniquely owned, mutable run of bytes.
#[verifier::external_type_specification]
#[verifier::external_body]
pub struct ExBytesMut(bytes::BytesMut);

/// The bytes that a `bytes::Bytes` holds.
pub uninterp spec fn bytes_contents(data: bytes::Bytes) -> Seq<u8>;

/// The bytes that a `bytes::BytesMut` holds.
pub uninterp spec fn bytes_mut_contents(data: bytes::BytesMut) -> Seq<u8>;

/// `Deref::deref` of `bytes::Bytes`: the bytes it holds, as a slice.
#[verifier::external_body]
fn bytes_deref(data: &bytes::Bytes) -> (r: &[u8])
    ensures
        r@ == bytes_contents(*data),
{
    core::ops::Deref::deref(data)
}

/// `Deref::deref` of `bytes::BytesMut`: the bytes it holds, as a slice.
#[verifier::external_body]
fn bytes_mut_deref(data: &bytes::BytesMut) -> (r: &[u8])
    ensures
        r@ == bytes_mut_contents(*data),
{
    core::ops::Deref::deref(data)
}

/// `DerefMut::deref_mut` of `bytes::BytesMut`, used to store one byte: the
/// byte at `index` becomes `value`, the others stay.
#[verifier::external_body]
fn bytes_mut_store(data: &mut bytes::BytesMut, index: usize, value: u8)
    requires
        index < bytes_mut_contents(*old(data)).len(),
    ensures
        bytes_mut_contents(*final(data)) == bytes_mut_contents(*old(data)).update(
            index as int,
            value,
        ),
{
    core::ops::DerefMut::deref_mut(data)[index] = value;
}

/// `bytes::BytesMut::freeze`: the same bytes, from now on immutable.
#[verifier::external_body]
fn bytes_mut_freeze(data: bytes::BytesMut) -> (r: bytes::Bytes)
    ensures
        bytes_contents(r) == bytes_mut_contents(data),
{
    data.freeze()
}

/// `Clone::clone` of `bytes::Bytes`: a second handle on the same bytes.
pub assume_specification[ <bytes::Bytes as Clone>::clone ](data: &bytes::Bytes) -> (r: bytes::Bytes)
    ensures
        bytes_contents(r) == bytes_contents(*data),
;

/// `Clone::clone` of `bytes::BytesMut`: a copy of the bytes.
pub assume_specification[ <bytes::BytesMut as Clone>::clone ](data: &bytes::BytesMut) -> (r:
    bytes::BytesMut)
    ensures
        bytes_mut_contents(r) == bytes_mut_contents(*data),
;

//----------------------------------------------------------------------------//

/// `BlockMetadata` which tracks metadata associated with a `Block` of memory.
#[derive(Copy, Clone, Hash, PartialEq, Eq, Debug)]
pub struct BlockMetadata {
    pub info_hash: InfoHash,
    pub piece_index: u64,
    pub block_offset: u64,
    pub block_length: usize,
}

impl BlockMetadata {
    pub fn new(info_hash: InfoHash, piece_index: u64, block_offset: u64, block_length: usize) -> (r:
        BlockMetadata)
        ensures
            r == (BlockMetadata { info_hash, piece_index, block_offset, block_length }),
    {
        BlockMetadata { info_hash, piece_index, block_offset, block_length }
    }

    /// Metadata with the info hash of twenty zero bytes.
    pub fn with_default_hash(piece_index: u64, block_offset: u64, block_length: usize) -> (r:
        BlockMetadata)
        ensures
            r.info_hash@ == Seq::new(20, |i: int| 0u8),
            r.piece_index == piece_index,
            r.block_offset == block_offset,
            r.block_length == block_length,
    {
        let info_hash = ShaHash::from_array([0u8; 20]);
        assert(info_hash@ =~= Seq::new(20, |i: int| 0u8));
        BlockMetadata::new(info_hash, piece_index, block_offset, block_length)
    }

    pub fn info_hash(&self) -> (r: InfoHash)
        ensures
            r == self.info_hash,
    {
        self.info_hash
    }

    pub fn piece_index(&self) -> (r: u64)
        ensures
            r == self.piece_index,
    {
        self.piece_index
    }

    pub fn block_offset(&self) -> (r: u64)
        ensures
            r == self.block_offset,
    {
        self.block_offset
    }

    pub fn block_length(&self) -> (r: usize)
        ensures
            r == self.block_length,
    {
        self.block_length
    }
}

impl Default for BlockMetadata {
    /// Metadata of the block of no bytes at the start of the first piece,
    /// with the info hash of twenty zero bytes.
    fn default() -> (r: BlockMetadata)
        ensures
            r.info_hash@ == Seq::new(20, |i: int| 0u8),
            r.piece_index == 0,
            r.block_offset == 0,
            r.block_length == 0,
    {
        BlockMetadata::with_default_hash(0, 0, 0)
    }
}

//----------------------------------------------------------------------------//

/// `Block` of immutable memory.
#[derive(Debug, Clone)]
pub struct Block {
    pub metadata: BlockMetadata,
    pub block_data: bytes::Bytes,
}

impl View for Block {
    type V = Seq<u8>;

    /// The bytes of the block.
    open spec fn view(&self) -> Seq<u8> {
        bytes_contents(self.block_data)
    }
}

impl Block {
    /// Create a new `Block`.
    pub fn new(metadata: BlockMetadata, block_data: bytes::Bytes) -> (r: Block)
        ensures
            r.metadata == metadata,
            r.block_data == block_data,
    {
        Block { metadata, block_data }
    }

    /// Access the metadata for the block.
    pub fn metadata(&self) -> (r: BlockMetadata)
        ensures
            r == self.metadata,
    {
        self.metadata
    }

    pub fn into_parts(self) -> (r: (BlockMetadata, bytes::Bytes))
        ensures
            r.0 == self.metadata,
            r.1 == self.block_data,
    {
        (self.metadata, self.block_data)
    }

    /// The block that a mutable block becomes when nobody writes to it any
    /// more: the same metadata and the same bytes.
    pub fn from(block: BlockMut) -> (r: Block)
        ensures
            r.metadata == block.metadata,
            r@ == block@,
    {
        Block::new(block.metadata(), bytes_mut_freeze(block.block_data))
    }

    /// The bytes of the block.
    pub fn as_slice(&self) -> (r: &[u8])
        ensures
            r@ == self@,
    {
        bytes_deref(&self.block_data)
    }
}

//----------------------------------------------------------------------------//

/// `BlockMut` of mutable memory.
#[derive(Debug, Clone)]
pub struct BlockMut {
    pub metadata: BlockMetadata,
    pub block_data: bytes::BytesMut,
}

impl View for BlockMut {
    type V = Seq<u8>;

    /// The bytes of the block.
    open spec fn view(&self) -> Seq<u8> {
        bytes_mut_contents(self.block_data)
    }
}

impl BlockMut {
    /// Create a new `BlockMut`.
    pub fn new(metadata: BlockMetadata, block_data: bytes::BytesMut) -> (r: BlockMut)
        ensures
            r.metadata == metadata,
            r.block_data == block_data,
    {
        BlockMut { metadata, block_data }
    }

    /// Access the metadata for the block.
    pub fn metadata(&self) -> (r: BlockMetadata)
        ensures
            r == self.metadata,
    {
        self.metadata
    }

    pub fn into_parts(self) -> (r: (BlockMetadata, bytes::BytesMut))
        ensures
            r.0 == self.metadata,
            r.1 == self.block_data,
    {
        (self.metadata, self.block_data)
    }

    /// The bytes of the block.
    pub fn as_slice(&self) -> (r: &[u8])
        ensures
            r@ == self@,
    {
        bytes_mut_deref(&self.block_data)
    }

    /// Stores `value` at `index` of the block, where the block has such an
    /// index, and says whether it has.
    pub fn store(&mut self, index: usize, value: u8) -> (r: bool)
        ensures
            r == (index < old(self)@.len()),
            final(self).metadata == old(self).metadata,
            r ==> final(self)@ == old(self)@.update(index as int, value),
            !r ==> final(self)@ == old(self)@,
    {
        if index < self.as_slice().len() {
            bytes_mut_store(&mut self.block_data, index, value);
            true
        } else {
            false
        }
    }

    /// Copies `src` into the block from `offset` on, where it fits, and says
    /// whether it fitted. A block that is too short stays as it was.
    pub fn copy_from(&mut self, offset: usize, src: &[u8]) -> (r: bool)
        ensures
            r == (offset + src@.len() <= old(self)@.len()),
            final(self).metadata == old(self).metadata,
            r ==> final(self)@ == old(self)@.subrange(0, offset as int) + src@ + old(
                self,
            )@.subrange(offset + src@.len(), old(self)@.len() as int),
            !r ==> final(self)@ == old(self)@,
    {
        let len = self.as_slice().len();
        if offset > len || src.len() > len - offset {
            return false;
        }
        let mut i: usize = 0;
        while i < src.len()
            invariant
                i <= src.len(),
                offset + src.len() <= len,
                len == old(self)@.len(),
                self.metadata == old(self).metadata,
                self@.len() == len,
                self@ == old(self)@.subrange(0, offset as int) + src@.subrange(0, i as int) + old(
                    self,
                )@.subrange(offset + i, len as int),
            decreases src.len() - i,
        {
            bytes_mut_store(&mut self.block_data, offset + i, src[i]);
            i += 1;
            assert(self@ =~= old(self)@.subrange(0, offset as int) + src@.subrange(0, i as int)
                + old(self)@.subrange(offset + i, len as int));
        }
        assert(src@.subrange(0, src.len() as int) =~= src@);
        true
    }
}

} // verus!
