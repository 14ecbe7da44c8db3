use bip::peer::handshake::HandshakeMessage;
use bip::util::bt::ShaHash;
use bip::peer::message::standard::{
    BitFieldMessage, CancelMessage, HaveMessage, PieceMessage, RequestMessage,
};
use bip::peer::message::{ExtensionMessage, PeerWireProtocolMessage};
use bip::peer::protocol::null::NullProtocol;
use bip::peer::protocol::unit::UnitProtocol;
use bip::peer::protocol::wire::PeerWireProtocol;
use bip::peer::protocol::{NestedPeerProtocol, PeerProtocol};
use bip::util::error::FramingError;

fn frame_of(message: &PeerWireProtocolMessage) -> Vec<u8> {
    let mut out = Vec::new();
    let written = message.write_bytes(&mut out).unwrap();
    assert_eq!(written, out.len());
    assert_eq!(message.message_size(), Ok(out.len()));
    out
}

fn round_trip(message: PeerWireProtocolMessage) {
    let bytes = frame_of(&message);
    assert_eq!(PeerWireProtocolMessage::bytes_needed(&bytes, 1 << 20), Ok(Some(bytes.len())));
    assert_eq!(PeerWireProtocolMessage::parse_bytes(&bytes), Ok((message, bytes.len())));
}

#[test]
fn have_round_trip() {
    let message = PeerWireProtocolMessage::Have(HaveMessage::new(7));
    assert_eq!(frame_of(&message), vec![0, 0, 0, 5, 4, 0, 0, 0, 7]);
    assert_eq!(
        PeerWireProtocolMessage::parse_bytes(&[0, 0, 0, 5, 4, 0, 0, 0, 7]),
        Ok((PeerWireProtocolMessage::Have(HaveMessage::new(7)), 9))
    );
}

#[test]
fn keepalive_is_four_zero_bytes() {
    assert_eq!(frame_of(&PeerWireProtocolMessage::KeepAlive), vec![0, 0, 0, 0]);
    assert_eq!(PeerWireProtocolMessage::bytes_needed(&[0, 0, 0, 0], 1024), Ok(Some(4)));
    assert_eq!(PeerWireProtocolMessage::bytes_needed(&[0, 0, 0], 1024), Ok(None));
    assert_eq!(
        PeerWireProtocolMessage::parse_bytes(&[0, 0, 0, 0]),
        Ok((PeerWireProtocolMessage::KeepAlive, 4))
    );
}

#[test]
fn every_kind_of_message_round_trips() {
    round_trip(PeerWireProtocolMessage::KeepAlive);
    round_trip(PeerWireProtocolMessage::Choke);
    round_trip(PeerWireProtocolMessage::UnChoke);
    round_trip(PeerWireProtocolMessage::Interested);
    round_trip(PeerWireProtocolMessage::UnInterested);
    round_trip(PeerWireProtocolMessage::Have(HaveMessage::new(u32::MAX)));
    round_trip(PeerWireProtocolMessage::BitField(BitFieldMessage { bytes: vec![0x80, 0x01] }));
    round_trip(PeerWireProtocolMessage::BitField(BitFieldMessage { bytes: vec![] }));
    round_trip(PeerWireProtocolMessage::Request(RequestMessage::new(1, 2, 16384)));
    round_trip(PeerWireProtocolMessage::Piece(PieceMessage::new(3, 4, 5), vec![1, 2, 3, 4, 5]));
    round_trip(PeerWireProtocolMessage::Piece(PieceMessage::new(3, 4, 0), vec![]));
    round_trip(PeerWireProtocolMessage::Cancel(CancelMessage::new(5, 6, 7)));
    round_trip(PeerWireProtocolMessage::Extension(ExtensionMessage { sub_id: 0, body: vec![b'd', b'e'] }));
    round_trip(PeerWireProtocolMessage::Extension(ExtensionMessage { sub_id: 3, body: vec![] }));
}

#[test]
fn frames_have_the_id_of_their_kind() {
    assert_eq!(frame_of(&PeerWireProtocolMessage::Choke), vec![0, 0, 0, 1, 0]);
    assert_eq!(frame_of(&PeerWireProtocolMessage::UnChoke), vec![0, 0, 0, 1, 1]);
    assert_eq!(frame_of(&PeerWireProtocolMessage::Interested), vec![0, 0, 0, 1, 2]);
    assert_eq!(frame_of(&PeerWireProtocolMessage::UnInterested), vec![0, 0, 0, 1, 3]);
    assert_eq!(
        frame_of(&PeerWireProtocolMessage::Request(RequestMessage::new(1, 2, 3))),
        vec![0, 0, 0, 13, 6, 0, 0, 0, 1, 0, 0, 0, 2, 0, 0, 0, 3]
    );
    assert_eq!(
        frame_of(&PeerWireProtocolMessage::Cancel(CancelMessage::new(1, 2, 3))),
        vec![0, 0, 0, 13, 8, 0, 0, 0, 1, 0, 0, 0, 2, 0, 0, 0, 3]
    );
    assert_eq!(
        frame_of(&PeerWireProtocolMessage::Piece(PieceMessage::new(1, 2, 2), vec![0xaa, 0xbb])),
        vec![0, 0, 0, 11, 7, 0, 0, 0, 1, 0, 0, 0, 2, 0xaa, 0xbb]
    );
    assert_eq!(
        frame_of(&PeerWireProtocolMessage::BitField(BitFieldMessage { bytes: vec![0xf0] })),
        vec![0, 0, 0, 2, 5, 0xf0]
    );
    assert_eq!(
        frame_of(&PeerWireProtocolMessage::Extension(ExtensionMessage { sub_id: 1, body: vec![9] })),
        vec![0, 0, 0, 3, 20, 1, 9]
    );
}

#[test]
fn bytes_needed_does_not_change_with_more_bytes() {
    let frame = vec![0u8, 0, 0, 5, 4, 0, 0, 0, 7, 0xff, 0xff];
    for end in 4..frame.len() {
        assert_eq!(PeerWireProtocolMessage::bytes_needed(&frame[..end], 100), Ok(Some(9)));
    }
    for end in 0..4 {
        assert_eq!(PeerWireProtocolMessage::bytes_needed(&frame[..end], 100), Ok(None));
    }
}

#[test]
fn too_long_a_payload_is_a_bad_length() {
    assert_eq!(
        PeerWireProtocolMessage::bytes_needed(&[0, 0, 1, 0], 255),
        Err(FramingError::BadLength)
    );
    assert_eq!(PeerWireProtocolMessage::bytes_needed(&[0, 0, 1, 0], 256), Ok(Some(260)));
}

#[test]
fn parse_faults() {
    assert_eq!(PeerWireProtocolMessage::parse_bytes(&[0, 0, 0]), Err(FramingError::ShortRead));
    assert_eq!(
        PeerWireProtocolMessage::parse_bytes(&[0, 0, 0, 5, 4, 0, 0, 0]),
        Err(FramingError::ShortRead)
    );
    assert_eq!(
        PeerWireProtocolMessage::parse_bytes(&[0, 0, 0, 1, 9]),
        Err(FramingError::InvalidValue)
    );
    assert_eq!(
        PeerWireProtocolMessage::parse_bytes(&[0, 0, 0, 2, 0, 0]),
        Err(FramingError::BadLength)
    );
    assert_eq!(
        PeerWireProtocolMessage::parse_bytes(&[0, 0, 0, 4, 4, 0, 0, 0]),
        Err(FramingError::BadLength)
    );
    assert_eq!(
        PeerWireProtocolMessage::parse_bytes(&[0, 0, 0, 3, 7, 0, 0]),
        Err(FramingError::BadLength)
    );
    assert_eq!(PeerWireProtocolMessage::parse_bytes(&[0, 0, 0, 1, 20]), Err(FramingError::BadLength));
}

#[test]
fn a_piece_that_misstates_its_block_is_not_written() {
    let message = PeerWireProtocolMessage::Piece(PieceMessage::new(0, 0, 3), vec![1, 2]);
    let mut out = vec![0xee];
    assert_eq!(message.write_bytes(&mut out), Err(FramingError::BadLength));
    assert_eq!(out, vec![0xee]);
    assert_eq!(message.message_size(), Err(FramingError::BadLength));
}

#[test]
fn standard_bodies_read_from_bytes() {
    assert_eq!(HaveMessage::from_bytes(&[0, 0, 1, 0, 9]), Ok((HaveMessage::new(256), 4)));
    assert_eq!(HaveMessage::from_bytes(&[0, 0, 1]), Err(FramingError::ShortRead));
    assert_eq!(HaveMessage::new(5).piece_index(), 5);
    assert_eq!(
        RequestMessage::from_bytes(&[0, 0, 0, 1, 0, 0, 0, 2, 0, 0, 0, 3]),
        Ok((RequestMessage::new(1, 2, 3), 12))
    );
    assert_eq!(RequestMessage::from_bytes(&[0; 11]), Err(FramingError::ShortRead));
    assert_eq!(
        CancelMessage::from_bytes(&[0, 0, 0, 1, 0, 0, 0, 2, 0, 0, 0, 3]),
        Ok((CancelMessage::new(1, 2, 3), 12))
    );
    assert_eq!(
        PieceMessage::from_bytes(&[0, 0, 0, 1, 0, 0, 0, 2, 0xaa], 1),
        Ok((PieceMessage::new(1, 2, 1), 8))
    );
    assert_eq!(PieceMessage::from_bytes(&[0; 7], 1), Err(FramingError::ShortRead));
    let (bitfield, used) = BitFieldMessage::from_bytes(&[1, 2, 3], 2).unwrap();
    assert_eq!(bitfield.as_bytes(), &[1, 2]);
    assert_eq!(used, 2);
    assert_eq!(BitFieldMessage::from_bytes(&[1], 2), Err(FramingError::ShortRead));
}

#[test]
fn getters_return_what_new_was_given() {
    let request = RequestMessage::new(1, 2, 3);
    assert_eq!((request.piece_index(), request.block_offset(), request.block_length()), (1, 2, 3));
    let piece = PieceMessage::new(4, 5, 6);
    assert_eq!((piece.piece_index(), piece.block_offset(), piece.block_length()), (4, 5, 6));
    let cancel = CancelMessage::new(7, 8, 9);
    assert_eq!((cancel.piece_index(), cancel.block_offset(), cancel.block_length()), (7, 8, 9));
}

#[test]
fn bitfield_has_a_bit_for_every_piece() {
    assert_eq!(BitFieldMessage::new(0).as_bytes().len(), 0);
    assert_eq!(BitFieldMessage::new(1).as_bytes(), &[0]);
    assert_eq!(BitFieldMessage::new(8).as_bytes(), &[0]);
    assert_eq!(BitFieldMessage::new(9).as_bytes(), &[0, 0]);
}

#[test]
fn wire_protocol_follows_the_messages() {
    let mut protocol = PeerWireProtocol::new(64);
    assert_eq!(protocol.max_payload(), 64);
    assert_eq!(protocol.bytes_needed(&[0, 0, 0, 5, 4]), Ok(Some(9)));
    assert_eq!(protocol.bytes_needed(&[0, 0, 0, 65]), Err(FramingError::BadLength));
    assert_eq!(
        protocol.parse_bytes(&[0, 0, 0, 5, 4, 0, 0, 0, 7]),
        Ok(Ok(PeerWireProtocolMessage::Have(HaveMessage::new(7))))
    );
    assert_eq!(protocol.parse_bytes(&[0, 0, 0, 1, 9]), Ok(Err(FramingError::InvalidValue)));
    assert_eq!(protocol.parse_bytes(&[0, 0, 0, 1]), Err(FramingError::ShortRead));
    let mut out = Vec::new();
    let item = Ok(PeerWireProtocolMessage::Choke);
    assert_eq!(protocol.message_size(&item), Ok(5));
    assert_eq!(protocol.write_bytes(&item, &mut out), Ok(5));
    assert_eq!(out, vec![0, 0, 0, 1, 0]);
    let fault = Err(FramingError::BadLength);
    assert_eq!(protocol.write_bytes(&fault, &mut out), Err(FramingError::InvalidValue));
    assert_eq!(out.len(), 5);
}

#[test]
fn null_and_unit_protocols_take_no_bytes() {
    let mut null = NullProtocol::new();
    assert_eq!(null.bytes_needed(&[1, 2]), Ok(Some(0)));
    assert_eq!(null.parse_bytes(&[]), Err(FramingError::InvalidValue));
    assert_eq!(NestedPeerProtocol::<u8>::received_message(&mut null, &1), 0);
    let mut unit = UnitProtocol::new();
    assert_eq!(unit.bytes_needed(&[1, 2]), Ok(Some(0)));
    assert_eq!(unit.parse_bytes(&[1]), Ok(Ok(())));
    let mut out = Vec::new();
    assert_eq!(unit.write_bytes(&Ok(()), &mut out), Ok(0));
    assert!(out.is_empty());
    assert_eq!(unit.message_size(&Ok(())), Ok(0));
    assert_eq!(NestedPeerProtocol::<u8>::sent_message(&mut unit, &1), 0);
}

#[test]
fn handshake_is_sixty_eight_bytes() {
    let handshake = HandshakeMessage::new(
        [0, 0, 0, 0, 0, 0x10, 0, 0],
        ShaHash::from_array([1u8; 20]),
        ShaHash::from_array([2u8; 20]),
    );
    let mut out = Vec::new();
    handshake.write_bytes(&mut out);
    assert_eq!(out.len(), 68);
    assert_eq!(out[0], 19);
    assert_eq!(&out[1..20], b"BitTorrent protocol");
    assert_eq!(&out[20..28], &[0, 0, 0, 0, 0, 0x10, 0, 0]);
    assert_eq!(&out[28..48], &[1u8; 20]);
    assert_eq!(&out[48..68], &[2u8; 20]);
    assert_eq!(HandshakeMessage::from_bytes(&out), Ok((handshake, 68)));
    assert_eq!(handshake.reserved(), [0, 0, 0, 0, 0, 0x10, 0, 0]);
    assert_eq!(handshake.info_hash(), ShaHash::from_array([1u8; 20]));
    assert_eq!(handshake.peer_id(), ShaHash::from_array([2u8; 20]));
    assert_eq!(HandshakeMessage::from_bytes(&out[..67]), Err(FramingError::ShortRead));
    let mut wrong_name = out.clone();
    wrong_name[5] = b'X';
    assert_eq!(HandshakeMessage::from_bytes(&wrong_name), Err(FramingError::BadMagic));
    let mut wrong_length = out.clone();
    wrong_length[0] = 18;
    assert_eq!(HandshakeMessage::from_bytes(&wrong_length), Err(FramingError::BadMagic));
    out.push(9);
    assert_eq!(HandshakeMessage::from_bytes(&out), Ok((handshake, 68)));
}
