use bip::peer::message::extended::{ExtendedMessage, HandshakeError};
use bip::peer::message::{ExtensionMessage, PeerWireProtocolMessage};
use bip::peer::protocol::extension::PeerExtensionProtocol;
use bip::peer::protocol::wire::ExtendedWireProtocol;
use bip::peer::protocol::{NestedPeerProtocol, PeerProtocol};
use bip::select::discovery::error::{DiscoveryError, PeerInfo};
use bip::util::bt::ShaHash;
use bip::util::test::dummy_socket_addr_v4;

#[test]
fn discovery_errors_carry_their_subject() {
    let hash = ShaHash::from_array([1u8; 20]);
    let info = PeerInfo::new(dummy_socket_addr_v4(), ShaHash::from_array([2u8; 20]), hash);
    assert_eq!(info.addr(), dummy_socket_addr_v4());
    assert_eq!(info.peer_id(), ShaHash::from_array([2u8; 20]));
    assert_eq!(info.hash(), hash);
    let error = DiscoveryError::InvalidMessage { info, message: "bad".to_string() };
    assert_ne!(error, DiscoveryError::InvalidMetainfoExists { hash });
    assert_ne!(
        DiscoveryError::InvalidMetainfoExists { hash },
        DiscoveryError::InvalidMetainfoNotExists { hash }
    );
}

#[test]
fn extension_handshake_round_trips() {
    let mut handshake = ExtendedMessage::new();
    handshake.insert(b"ut_pex", 1);
    handshake.insert(b"ut_metadata", 2);
    let encoded = handshake.encode();
    assert_eq!(encoded, b"d1:md11:ut_metadatai2e6:ut_pexi1eee".to_vec());
    let parsed = ExtendedMessage::from_bytes(&encoded).unwrap();
    assert_eq!(parsed.query_id(b"ut_pex"), Some(1));
    assert_eq!(parsed.query_id(b"ut_metadata"), Some(2));
    assert_eq!(parsed.query_id(b"other"), None);
    assert_eq!(parsed.query_name(2), Some(&b"ut_metadata"[..]));
    assert_eq!(parsed.query_name(3), None);
}

#[test]
fn extension_handshake_skips_what_is_no_id() {
    let parsed = ExtendedMessage::from_bytes(b"d1:md1:ai256e1:bi-1e1:c1:x1:di7eee").unwrap();
    assert_eq!(parsed.query_id(b"a"), None);
    assert_eq!(parsed.query_id(b"b"), None);
    assert_eq!(parsed.query_id(b"c"), None);
    assert_eq!(parsed.query_id(b"d"), Some(7));
}

#[test]
fn extension_handshake_needs_an_id_map() {
    assert_eq!(ExtendedMessage::from_bytes(b"de"), Err(HandshakeError::NoIdMap));
    assert_eq!(ExtendedMessage::from_bytes(b"d1:mi1ee"), Err(HandshakeError::NoIdMap));
    assert_eq!(ExtendedMessage::from_bytes(b"i1e"), Err(HandshakeError::NoIdMap));
    assert!(matches!(ExtendedMessage::from_bytes(b"d1:m"), Err(HandshakeError::Bencode(_))));
}

#[test]
fn handshakes_are_seen_before_the_next_frame() {
    let mut protocol = PeerExtensionProtocol::new();
    assert_eq!(protocol.received_name(1), None);
    assert_eq!(protocol.id_to_send(b"ut_pex"), None);

    let mut ours = ExtendedMessage::new();
    ours.insert(b"ut_pex", 1);
    let mut theirs = ExtendedMessage::new();
    theirs.insert(b"ut_pex", 5);

    assert_eq!(protocol.sent_message(&ours), 0);
    assert_eq!(protocol.received_name(1), Some(&b"ut_pex"[..]));
    assert_eq!(protocol.id_to_send(b"ut_pex"), None);

    assert_eq!(protocol.received_message(&theirs), 0);
    assert_eq!(protocol.id_to_send(b"ut_pex"), Some(5));
    assert_eq!(protocol.received_name(5), None);
}

#[test]
fn the_wire_notes_handshakes_that_pass() {
    let mut protocol = ExtendedWireProtocol::new(1024);
    let mut theirs = ExtendedMessage::new();
    theirs.insert(b"ut_pex", 5);
    let incoming = PeerWireProtocolMessage::Extension(ExtensionMessage { sub_id: 0, body: theirs.encode() });
    let mut frame = Vec::new();
    incoming.write_bytes(&mut frame).unwrap();

    assert_eq!(protocol.bytes_needed(&frame), Ok(Some(frame.len())));
    assert_eq!(protocol.extension.id_to_send(b"ut_pex"), None);
    assert_eq!(protocol.parse_bytes(&frame), Ok(Ok(incoming)));
    assert_eq!(protocol.extension.id_to_send(b"ut_pex"), Some(5));
    assert_eq!(protocol.extension.received_name(1), None);

    let mut ours = ExtendedMessage::new();
    ours.insert(b"ut_pex", 1);
    let outgoing = Ok(PeerWireProtocolMessage::Extension(ExtensionMessage { sub_id: 0, body: ours.encode() }));
    let mut out = Vec::new();
    let size = protocol.message_size(&outgoing).unwrap();
    assert_eq!(protocol.write_bytes(&outgoing, &mut out), Ok(size));
    assert_eq!(out.len(), size);
    assert_eq!(protocol.extension.received_name(1), Some(&b"ut_pex"[..]));
    assert_eq!(protocol.extension.id_to_send(b"ut_pex"), Some(5));
}

#[test]
fn other_messages_leave_the_ids_alone() {
    let mut protocol = ExtendedWireProtocol::new(1024);
    assert_eq!(protocol.parse_bytes(&[0, 0, 0, 1, 0]), Ok(Ok(PeerWireProtocolMessage::Choke)));
    let not_a_handshake =
        PeerWireProtocolMessage::Extension(ExtensionMessage { sub_id: 3, body: b"d1:md1:ai1eee".to_vec() });
    let mut frame = Vec::new();
    not_a_handshake.write_bytes(&mut frame).unwrap();
    assert_eq!(protocol.parse_bytes(&frame), Ok(Ok(not_a_handshake)));
    let broken = PeerWireProtocolMessage::Extension(ExtensionMessage { sub_id: 0, body: b"nonsense".to_vec() });
    let mut frame = Vec::new();
    broken.write_bytes(&mut frame).unwrap();
    assert_eq!(protocol.parse_bytes(&frame), Ok(Ok(broken)));
    assert_eq!(protocol.extension.id_to_send(b"a"), None);
    assert!(protocol.extension.their_extended_msg.is_none());
    assert!(protocol.extension.our_extended_msg.is_none());
}
