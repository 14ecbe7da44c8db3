use bip::util::bt::ShaHash;
use bip::util::convert::{read_u16_be, read_u32_be, read_u64_be, write_u16_be, write_u32_be, write_u64_be};
use bip::util::error::{LengthError, LengthErrorKind};
use bip::util::net::{IpAddr, Ipv4Addr, Ipv6Addr, SocketAddr, SocketAddrV4, SocketAddrV6};
use bip::util::test::{
    dummy_block_node_ids, dummy_block_socket_addrs, dummy_ipv4_addr, dummy_ipv6_addr, dummy_node_id,
    dummy_socket_addr_v4,
};

#[test]
fn u32_is_written_most_significant_byte_first() {
    let mut out = Vec::new();
    write_u32_be(&mut out, 0x0102_0304);
    assert_eq!(out, vec![1u8, 2, 3, 4]);
    assert_eq!(read_u32_be(&out, 0), Some(0x0102_0304));
    assert_eq!(read_u32_be(&out, 1), None);
}

#[test]
fn u16_and_u64_are_written_most_significant_byte_first() {
    let mut out = Vec::new();
    write_u16_be(&mut out, 0x1ae1);
    write_u64_be(&mut out, 0x0417_2710_1980);
    assert_eq!(out, vec![0x1a, 0xe1, 0, 0, 0x04, 0x17, 0x27, 0x10, 0x19, 0x80]);
    assert_eq!(read_u16_be(&out, 0), Some(6881));
    assert_eq!(read_u64_be(&out, 2), Some(0x0417_2710_1980));
    assert_eq!(read_u64_be(&out, 3), None);
    assert_eq!(read_u16_be(&out, 9), None);
}

#[test]
fn reading_skips_to_the_offset() {
    let bytes = [9u8, 9, 0, 0, 1, 0];
    assert_eq!(read_u32_be(&bytes, 2), Some(256));
    assert_eq!(read_u16_be(&bytes, 4), Some(256));
}

#[test]
fn sha_hash_takes_twenty_bytes_only() {
    let hash = ShaHash::from_hash(&[7u8; 20]).unwrap();
    assert_eq!(hash.as_bytes(), &[7u8; 20]);
    assert_eq!(
        ShaHash::from_hash(&[7u8; 19]),
        Err(LengthError { kind: LengthErrorKind::LengthExpected, length: 20, index: None })
    );
    assert!(ShaHash::from_hash(&[7u8; 21]).is_err());
    assert_eq!(ShaHash::len(), 20);
    assert_eq!(ShaHash::bits(), 160);
}

#[test]
fn xor_is_byte_by_byte() {
    let a = ShaHash::from_array([0b1100u8; 20]);
    let b = ShaHash::from_array([0b1010u8; 20]);
    assert_eq!(a.xor(&b).into_array(), [0b0110u8; 20]);
    assert!(a.same_as(&a));
    assert!(!a.same_as(&b));
}

#[test]
fn compact_endpoint_is_address_then_port() {
    let addr = SocketAddrV4::new(Ipv4Addr::new(192, 168, 0, 1), 6881);
    let mut out = Vec::new();
    addr.write_compact(&mut out);
    assert_eq!(out, vec![192, 168, 0, 1, 0x1a, 0xe1]);
    assert_eq!(SocketAddrV4::read_compact(&out, 0), Some(addr));
    assert_eq!(SocketAddrV4::read_compact(&out, 1), None);
}

#[test]
fn ipv6_segments_are_big_endian() {
    let addr = Ipv6Addr::new(0x0102, 0, 0, 0, 0, 0, 0, 0x00ff);
    let octets = addr.octets();
    assert_eq!(octets[0], 1);
    assert_eq!(octets[1], 2);
    assert_eq!(octets[15], 0xff);
    assert!(!addr.is_unspecified());
    assert!(Ipv6Addr::new(0, 0, 0, 0, 0, 0, 0, 0).is_unspecified());
    assert!(Ipv4Addr::new(0, 0, 0, 0).is_unspecified());
    assert!(!Ipv4Addr::new(0, 0, 0, 1).is_unspecified());
}

#[test]
fn dummy_addresses_are_loopback() {
    assert_eq!(dummy_ipv4_addr(), IpAddr::V4(Ipv4Addr::new(127, 0, 0, 1)));
    assert_eq!(dummy_ipv6_addr(), IpAddr::V6(Ipv6Addr::new(127, 0, 0, 1, 0, 0, 0, 0)));
    assert_eq!(
        dummy_socket_addr_v4(),
        SocketAddr::V4(SocketAddrV4::new(Ipv4Addr::new(127, 0, 0, 1), 0))
    );
    assert!(dummy_ipv4_addr().is_ipv4());
    assert!(dummy_ipv6_addr().is_ipv6());
}

#[test]
fn dummy_block_socket_addrs_count_ports_up() {
    let block = dummy_block_socket_addrs(3);
    assert_eq!(block.len(), 3);
    for (i, addr) in block.iter().enumerate() {
        assert_eq!(addr.port(), i as u16);
        assert_eq!(addr.ip(), IpAddr::V4(Ipv4Addr::new(127, 0, 0, 1)));
    }
    assert!(dummy_block_socket_addrs(0).is_empty());
}

#[test]
fn dummy_node_ids_repeat_their_index() {
    assert_eq!(dummy_node_id().into_array(), [0u8; 20]);
    let block = dummy_block_node_ids(4);
    assert_eq!(block.len(), 4);
    for (i, id) in block.iter().enumerate() {
        assert_eq!(id.into_array(), [i as u8; 20]);
    }
}

#[test]
fn compact_v6_endpoint_is_address_then_port() {
    let addr = SocketAddrV6::new(Ipv6Addr::new(0x2001, 0xdb8, 0, 0, 0, 0, 0, 1), 6881);
    let mut out = vec![0xee];
    addr.write_compact(&mut out);
    assert_eq!(out.len(), 19);
    assert_eq!(&out[1..5], &[0x20, 0x01, 0x0d, 0xb8]);
    assert_eq!(&out[17..], &[0x1a, 0xe1]);
    assert_eq!(SocketAddrV6::read_compact(&out, 1), Some(addr));
    assert_eq!(SocketAddrV6::read_compact(&out, 2), None);
    assert_eq!(addr.ip(), Ipv6Addr::new(0x2001, 0xdb8, 0, 0, 0, 0, 0, 1));
    assert_eq!(addr.port(), 6881);
}
