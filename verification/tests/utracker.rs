use bip::util::bt::ShaHash;
use bip::util::error::FramingError;
use bip::util::net::{Ipv4Addr, Ipv6Addr};
use bip::utracker::error::ErrorResponse;
use bip::utracker::announce::{
    AnnounceEvent, AnnounceRequest, ClientState, DesiredPeers, SourceIP,
};
use bip::utracker::request::{RequestType, TrackerRequest, CONNECT_ID_PROTOCOL_ID};
use bip::utracker::scrape::ScrapeRequest;

fn wire_of(request: &TrackerRequest) -> Vec<u8> {
    let mut out = Vec::new();
    request.write_bytes(&mut out);
    out
}

fn announce(ip: SourceIP) -> AnnounceRequest {
    AnnounceRequest::new(
        ShaHash::from_array([1u8; 20]),
        ShaHash::from_array([2u8; 20]),
        ClientState::new(3, 4, 5, AnnounceEvent::Started),
        ip,
        6881,
        0xdead_beef,
        DesiredPeers::Specified(50),
    )
}

#[test]
fn connect_request_is_sixteen_bytes() {
    let request = TrackerRequest::new(CONNECT_ID_PROTOCOL_ID, 0x0a0b_0c0d, RequestType::Connect);
    let bytes = wire_of(&request);
    assert_eq!(
        bytes,
        vec![0x00, 0x00, 0x04, 0x17, 0x27, 0x10, 0x19, 0x80, 0, 0, 0, 0, 0x0a, 0x0b, 0x0c, 0x0d]
    );
    let (parsed, used) = TrackerRequest::from_bytes(&bytes).unwrap();
    assert_eq!(used, 16);
    assert_eq!(parsed.connection_id(), CONNECT_ID_PROTOCOL_ID);
    assert_eq!(parsed.transaction_id(), 0x0a0b_0c0d);
    assert_eq!(parsed.request_type(), &RequestType::Connect);
}

#[test]
fn connect_with_another_connection_id_is_bad_magic() {
    let request = TrackerRequest::new(5, 1, RequestType::Connect);
    assert_eq!(TrackerRequest::from_bytes(&wire_of(&request)), Err(FramingError::BadMagic));
}

#[test]
fn announce_v4_round_trips() {
    let request = TrackerRequest::new(
        77,
        88,
        RequestType::Announce(announce(SourceIP::ExplicitV4(Ipv4Addr::new(10, 0, 0, 1)))),
    );
    let bytes = wire_of(&request);
    assert_eq!(bytes.len(), 16 + 82);
    assert_eq!(&bytes[8..12], &[0, 0, 0, 1]);
    assert_eq!(TrackerRequest::from_bytes(&bytes), Ok((request, 98)));
}

#[test]
fn announce_v6_round_trips() {
    let request = TrackerRequest::new(
        77,
        88,
        RequestType::Announce(announce(SourceIP::ExplicitV6(Ipv6Addr::new(1, 2, 3, 4, 5, 6, 7, 8)))),
    );
    let bytes = wire_of(&request);
    assert_eq!(bytes.len(), 16 + 94);
    assert_eq!(&bytes[8..12], &[0, 0, 0, 4]);
    assert_eq!(TrackerRequest::from_bytes(&bytes), Ok((request, 110)));
}

#[test]
fn implied_addresses_are_all_zero_on_the_wire() {
    let v4 = TrackerRequest::new(1, 2, RequestType::Announce(announce(SourceIP::ImpliedV4)));
    let bytes = wire_of(&v4);
    assert_eq!(&bytes[16 + 68..16 + 72], &[0, 0, 0, 0]);
    assert_eq!(TrackerRequest::from_bytes(&bytes), Ok((v4, 98)));
    let v6 = TrackerRequest::new(1, 2, RequestType::Announce(announce(SourceIP::ImpliedV6)));
    let bytes = wire_of(&v6);
    assert_eq!(&bytes[16 + 68..16 + 84], &[0u8; 16]);
    assert_eq!(TrackerRequest::from_bytes(&bytes), Ok((v6, 110)));
}

#[test]
fn announce_body_has_its_fields_in_order() {
    let mut out = Vec::new();
    announce(SourceIP::ExplicitV4(Ipv4Addr::new(10, 0, 0, 1))).write_bytes(&mut out);
    let mut expected = vec![1u8; 20];
    expected.extend_from_slice(&[2u8; 20]);
    expected.extend_from_slice(&[0, 0, 0, 0, 0, 0, 0, 3]);
    expected.extend_from_slice(&[0, 0, 0, 0, 0, 0, 0, 4]);
    expected.extend_from_slice(&[0, 0, 0, 0, 0, 0, 0, 5]);
    expected.extend_from_slice(&[0, 0, 0, 2]);
    expected.extend_from_slice(&[10, 0, 0, 1]);
    expected.extend_from_slice(&[0xde, 0xad, 0xbe, 0xef]);
    expected.extend_from_slice(&[0, 0, 0, 50]);
    expected.extend_from_slice(&[0x1a, 0xe1]);
    assert_eq!(out, expected);
}

#[test]
fn events_and_wishes_have_their_numbers() {
    assert_eq!(AnnounceEvent::NoEvent.as_id(), 0);
    assert_eq!(AnnounceEvent::Completed.as_id(), 1);
    assert_eq!(AnnounceEvent::Started.as_id(), 2);
    assert_eq!(AnnounceEvent::Stopped.as_id(), 3);
    assert_eq!(AnnounceEvent::from_id(3), Some(AnnounceEvent::Stopped));
    assert_eq!(AnnounceEvent::from_id(4), None);
    assert_eq!(DesiredPeers::Default.as_id(), 0xffff_ffff);
    assert_eq!(DesiredPeers::Specified(-2).as_id(), 0xffff_fffe);
    assert_eq!(DesiredPeers::from_id(0xffff_ffff), DesiredPeers::Default);
    assert_eq!(DesiredPeers::from_id(0xffff_fffe), DesiredPeers::Specified(-2));
    assert_eq!(DesiredPeers::from_id(7), DesiredPeers::Specified(7));
}

#[test]
fn announce_with_an_unknown_event_is_an_invalid_value() {
    let request = TrackerRequest::new(1, 2, RequestType::Announce(announce(SourceIP::ImpliedV4)));
    let mut bytes = wire_of(&request);
    bytes[16 + 67] = 4;
    assert_eq!(TrackerRequest::from_bytes(&bytes), Err(FramingError::InvalidValue));
}

#[test]
fn scrape_round_trips() {
    let mut scrape = ScrapeRequest::new();
    scrape.insert(ShaHash::from_array([1u8; 20]));
    scrape.insert(ShaHash::from_array([2u8; 20]));
    assert_eq!(scrape.len(), 2);
    assert_eq!(scrape.get(1), Some(ShaHash::from_array([2u8; 20])));
    assert_eq!(scrape.get(2), None);
    let request = TrackerRequest::new(9, 8, RequestType::Scrape(scrape));
    let bytes = wire_of(&request);
    assert_eq!(bytes.len(), 16 + 40);
    assert_eq!(&bytes[8..12], &[0, 0, 0, 2]);
    let owned = request.to_owned();
    assert_eq!(TrackerRequest::from_bytes(&bytes), Ok((request, 56)));
    assert_eq!(wire_of(&owned), bytes);
}

#[test]
fn scrape_needs_whole_hashes() {
    let mut bytes = vec![0u8; 16];
    bytes[11] = 2;
    assert_eq!(TrackerRequest::from_bytes(&bytes), Err(FramingError::ShortRead));
    bytes.extend_from_slice(&[0u8; 19]);
    assert_eq!(TrackerRequest::from_bytes(&bytes), Err(FramingError::ShortRead));
    bytes.push(0);
    assert!(TrackerRequest::from_bytes(&bytes).is_ok());
}

#[test]
fn short_and_unknown_requests_are_refused() {
    assert_eq!(TrackerRequest::from_bytes(&[0u8; 15]), Err(FramingError::ShortRead));
    let mut bytes = vec![0u8; 16];
    bytes[11] = 3;
    assert_eq!(TrackerRequest::from_bytes(&bytes), Err(FramingError::InvalidValue));
    bytes[11] = 1;
    assert_eq!(TrackerRequest::from_bytes(&bytes), Err(FramingError::ShortRead));
}

#[test]
fn to_owned_keeps_the_request() {
    let request = TrackerRequest::new(1, 2, RequestType::Announce(announce(SourceIP::ImpliedV4)));
    assert_eq!(request.to_owned(), request);
    assert_eq!(RequestType::Connect.to_owned(), RequestType::Connect);
}

#[test]
fn tracker_errors_carry_the_trackers_words() {
    let error = ErrorResponse::new(7, "torrent not registered");
    let mut out = Vec::new();
    error.write_bytes(&mut out);
    assert_eq!(&out[..8], &[0, 0, 0, 3, 0, 0, 0, 7]);
    assert_eq!(&out[8..], b"torrent not registered");
    let parsed = ErrorResponse::from_bytes(&out).unwrap();
    assert_eq!(parsed, error);
    assert_eq!(parsed.transaction_id(), 7);
    assert_eq!(parsed.message(), "torrent not registered");
    assert_eq!(ErrorResponse::from_bytes(&out[..7]), Err(FramingError::ShortRead));
    out[3] = 1;
    assert_eq!(ErrorResponse::from_bytes(&out), Err(FramingError::InvalidValue));
    out[3] = 3;
    out.push(0xff);
    assert_eq!(ErrorResponse::from_bytes(&out), Err(FramingError::InvalidValue));
    assert_eq!(ErrorResponse::from_bytes(&out[..8]).unwrap().message(), "");
}
