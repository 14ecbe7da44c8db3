use bip::disk::memory::block::{Block, BlockMetadata, BlockMut};
use bip::util::bt::ShaHash;
use bytes::{Bytes, BytesMut};

#[test]
fn metadata_keeps_what_it_was_given() {
    let hash = ShaHash::from_array([9u8; 20]);
    let metadata = BlockMetadata::new(hash, 1, 2, 3);
    assert_eq!(metadata.info_hash(), hash);
    assert_eq!(metadata.piece_index(), 1);
    assert_eq!(metadata.block_offset(), 2);
    assert_eq!(metadata.block_length(), 3);
}

#[test]
fn default_hash_is_all_zero() {
    let metadata = BlockMetadata::with_default_hash(1, 2, 3);
    assert_eq!(metadata.info_hash(), ShaHash::from_array([0u8; 20]));
    assert_eq!(metadata.piece_index(), 1);
    assert_eq!(BlockMetadata::default(), BlockMetadata::with_default_hash(0, 0, 0));
}

#[test]
fn block_holds_its_bytes() {
    let metadata = BlockMetadata::with_default_hash(0, 0, 3);
    let block = Block::new(metadata, Bytes::from_static(b"abc"));
    assert_eq!(block.metadata(), metadata);
    assert_eq!(block.as_slice(), b"abc");
    let copy = block.clone();
    let (meta, data) = block.into_parts();
    assert_eq!(meta, metadata);
    assert_eq!(&data[..], b"abc");
    assert_eq!(copy.as_slice(), b"abc");
}

#[test]
fn block_mut_can_be_written_and_frozen() {
    let metadata = BlockMetadata::with_default_hash(4, 5, 4);
    let mut block = BlockMut::new(metadata, BytesMut::from(&b"abcd"[..]));
    assert_eq!(block.as_slice(), b"abcd");
    assert!(block.store(1, b'X'));
    assert!(!block.store(4, b'Y'));
    assert_eq!(block.as_slice(), b"aXcd");
    assert!(block.copy_from(2, b"12"));
    assert_eq!(block.as_slice(), b"aX12");
    assert!(!block.copy_from(3, b"12"));
    assert_eq!(block.as_slice(), b"aX12");
    assert!(block.copy_from(4, b""));
    let copy = block.clone();
    assert_eq!(copy.as_slice(), b"aX12");
    let frozen = Block::from(block);
    assert_eq!(frozen.metadata(), metadata);
    assert_eq!(frozen.as_slice(), b"aX12");
    let (meta, data) = copy.into_parts();
    assert_eq!(meta, metadata);
    assert_eq!(&data[..], b"aX12");
}
