use bip::bencode::value::Bencode;
use bip::dht::error::{Detail, DhtError};
use bip::dht::message::announce_peer::{AnnouncePeerRequest, AnnouncePeerResponse, ConnectPort};
use bip::dht::message::compact_info::{CompactNodeInfo, CompactValueInfo};
use bip::dht::message::envelope::{ExpectedTable, MessageType};
use bip::dht::message::find_node::{FindNodeRequest, FindNodeResponse};
use bip::dht::message::get_peers::{CompactInfoType, GetPeersRequest, GetPeersResponse};
use bip::dht::message::ping::{PingRequest, PingResponse};
use bip::dht::message::request::{RequestType, RequestValidate};
use bip::dht::message::response::{ExpectedResponse, ResponseType, ResponseValidate};
use bip::util::bt::ShaHash;
use bip::util::error::{LengthError, LengthErrorKind};
use bip::util::net::{Ipv4Addr, SocketAddrV4};

fn id(byte: u8) -> ShaHash {
    ShaHash::from_array([byte; 20])
}

fn dict(entries: Vec<(&str, Bencode)>) -> Bencode {
    let mut d = Bencode::new_dict();
    for (key, value) in entries {
        d.insert(key.as_bytes().to_vec(), value);
    }
    d
}

fn byte_string(b: &[u8]) -> Bencode {
    Bencode::new_bytes(b.to_vec())
}

fn announce_args(port: Option<i64>, implied: Option<Bencode>) -> Bencode {
    let mut entries = vec![
        ("id", byte_string(&[1u8; 20])),
        ("info_hash", byte_string(&[2u8; 20])),
        ("token", byte_string(b"tok")),
    ];
    if let Some(port) = port {
        entries.push(("port", Bencode::new_int(port)));
    }
    if let Some(implied) = implied {
        entries.push(("implied_port", implied));
    }
    dict(entries)
}

#[test]
fn ping_request_encodes_with_sorted_keys() {
    let request = PingRequest::new(b"aa", id(0));
    let mut expected = b"d1:ad2:id20:".to_vec();
    expected.extend_from_slice(&[0u8; 20]);
    expected.extend_from_slice(b"e1:q4:ping1:t2:aa1:y1:qe");
    assert_eq!(request.encode(), expected);
}

#[test]
fn ping_response_encodes_with_sorted_keys() {
    let response = PingResponse::new(b"aa", id(b'x'));
    assert_eq!(response.encode(), b"d1:rd2:id20:xxxxxxxxxxxxxxxxxxxxe1:t2:aa1:y1:re".to_vec());
}

#[test]
fn announce_peer_with_implied_port_shows_port_zero() {
    let request =
        AnnouncePeerRequest::new(b"aa", id(b'1'), id(b'2'), b"tok", ConnectPort::Implied);
    assert_eq!(
        request.encode(),
        b"d1:ad2:id20:1111111111111111111112:implied_porti1e9:info_hash20:222222222222222222224:porti0e5:token3:toke1:q13:announce_peer1:t2:aa1:y1:qe"
            .to_vec()
    );
    let decoded = Bencode::decode(&request.encode()).unwrap();
    let args = decoded.lookup(b"a").unwrap();
    let parsed = AnnouncePeerRequest::from_parts(args, b"aa").unwrap();
    assert_eq!(parsed, request);
    assert_eq!(parsed.connect_port(), ConnectPort::Implied);
}

#[test]
fn announce_peer_with_explicit_port_round_trips() {
    let request =
        AnnouncePeerRequest::new(b"aa", id(b'1'), id(b'2'), b"tok", ConnectPort::Explicit(6881));
    let encoded = request.encode();
    assert!(encoded.windows(26).any(|w| w == b"12:implied_porti0e9:info_h"));
    assert!(encoded.windows(12).any(|w| w == b"4:porti6881e"));
    let decoded = Bencode::decode(&encoded).unwrap();
    let parsed = AnnouncePeerRequest::from_parts(decoded.lookup(b"a").unwrap(), b"aa").unwrap();
    assert_eq!(parsed, request);
    assert_eq!(parsed.transaction_id(), b"aa");
    assert_eq!(parsed.node_id(), id(b'1'));
    assert_eq!(parsed.info_hash(), id(b'2'));
    assert_eq!(parsed.token(), b"tok");
}

#[test]
fn implied_port_wins_whatever_the_port_says() {
    for port in [None, Some(0), Some(6881)] {
        for flag in [1, 2, -1] {
            let args = announce_args(port, Some(Bencode::new_int(flag)));
            let parsed = AnnouncePeerRequest::from_parts(&args, b"t").unwrap();
            assert_eq!(parsed.connect_port(), ConnectPort::Implied);
        }
    }
}

#[test]
fn without_implied_port_the_port_counts() {
    let args = announce_args(Some(6881), Some(Bencode::new_int(0)));
    assert_eq!(
        AnnouncePeerRequest::from_parts(&args, b"t").unwrap().connect_port(),
        ConnectPort::Explicit(6881)
    );
    let args = announce_args(Some(6881), None);
    assert_eq!(
        AnnouncePeerRequest::from_parts(&args, b"t").unwrap().connect_port(),
        ConnectPort::Explicit(6881)
    );
    let args = announce_args(Some(6881), Some(byte_string(b"1")));
    assert_eq!(
        AnnouncePeerRequest::from_parts(&args, b"t").unwrap().connect_port(),
        ConnectPort::Explicit(6881)
    );
    let args = announce_args(Some(-6881), None);
    assert_eq!(
        AnnouncePeerRequest::from_parts(&args, b"t").unwrap().connect_port(),
        ConnectPort::Explicit(6881)
    );
    let args = announce_args(Some(65536 + 80), None);
    assert_eq!(
        AnnouncePeerRequest::from_parts(&args, b"t").unwrap().connect_port(),
        ConnectPort::Explicit(80)
    );
    let args = announce_args(Some(i64::MIN), None);
    assert_eq!(
        AnnouncePeerRequest::from_parts(&args, b"t").unwrap().connect_port(),
        ConnectPort::Explicit(0)
    );
}

#[test]
fn announce_peer_without_a_port_is_an_invalid_request() {
    let args = announce_args(None, None);
    match AnnouncePeerRequest::from_parts(&args, b"tid") {
        Err(DhtError::InvalidRequest { trans_id, details: Detail::Convert(e) }) => {
            assert_eq!(trans_id, b"tid");
            assert_eq!(e.key(), b"port");
        }
        other => panic!("{:?}", other),
    }
}

#[test]
fn announce_peer_validates_its_ids() {
    let args = dict(vec![("id", byte_string(&[1u8; 19]))]);
    assert_eq!(
        AnnouncePeerRequest::from_parts(&args, b"t"),
        Err(DhtError::InvalidRequest { trans_id: b"t".to_vec(), details: Detail::NodeIdLength(19) })
    );
    let args = dict(vec![("id", byte_string(&[1u8; 20])), ("info_hash", byte_string(&[1u8; 21]))]);
    assert_eq!(
        AnnouncePeerRequest::from_parts(&args, b"t"),
        Err(DhtError::InvalidRequest {
            trans_id: b"t".to_vec(),
            details: Detail::InfoHashLength(21)
        })
    );
}

#[test]
fn announce_peer_response_round_trips() {
    let response = AnnouncePeerResponse::new(b"zz", id(b'n'));
    assert_eq!(response.transaction_id(), b"zz");
    assert_eq!(response.node_id(), id(b'n'));
    let decoded = Bencode::decode(&response.encode()).unwrap();
    assert_eq!(
        AnnouncePeerResponse::from_parts(decoded.lookup(b"r").unwrap(), b"zz"),
        Ok(response)
    );
}

#[test]
fn find_node_round_trips() {
    let request = FindNodeRequest::new(b"fn", id(1), id(2));
    let decoded = Bencode::decode(&request.encode()).unwrap();
    assert_eq!(FindNodeRequest::from_parts(decoded.lookup(b"a").unwrap(), b"fn"), Ok(request));
    assert_eq!(request.target_id(), id(2));
    let nodes = [7u8; 52];
    let response = FindNodeResponse::new(b"fn", id(3), &nodes).unwrap();
    let decoded = Bencode::decode(&response.encode()).unwrap();
    let parsed = FindNodeResponse::from_parts(decoded.lookup(b"r").unwrap(), b"fn").unwrap();
    assert_eq!(parsed, response);
    assert_eq!(parsed.nodes().len(), 2);
    assert!(matches!(
        FindNodeResponse::new(b"fn", id(3), &nodes[..51]),
        Err(DhtError::InvalidResponse { details: Detail::NodesLength(51), .. })
    ));
}

#[test]
fn get_peers_round_trips() {
    let request = GetPeersRequest::new(b"gp", id(1), id(2));
    let decoded = Bencode::decode(&request.encode()).unwrap();
    assert_eq!(GetPeersRequest::from_parts(decoded.lookup(b"a").unwrap(), b"gp"), Ok(request));
    assert_eq!(request.info_hash(), id(2));

    let values = vec![byte_string(&[10, 0, 0, 1, 0x1a, 0xe1]), byte_string(&[10, 0, 0, 2, 0x1a, 0xe2])];
    let nodes = [9u8; 26];
    let info = CompactInfoType::Both(
        CompactNodeInfo::new(&nodes).unwrap(),
        CompactValueInfo::new(&values).unwrap(),
    );
    let response = GetPeersResponse::new(b"gp", id(3), Some(b"token"), info);
    let encoded = response.encode();
    let decoded = Bencode::decode(&encoded).unwrap();
    let parsed = GetPeersResponse::from_parts(decoded.lookup(b"r").unwrap(), b"gp").unwrap();
    assert_eq!(parsed.node_id(), id(3));
    assert_eq!(parsed.token(), Some(&b"token"[..]));
    match parsed.info_type() {
        CompactInfoType::Both(n, v) => {
            assert_eq!(n.nodes(), &nodes);
            assert_eq!(v.len(), 2);
            assert_eq!(v.get(1), Some(SocketAddrV4::new(Ipv4Addr::new(10, 0, 0, 2), 6882)));
            assert_eq!(v.get(2), None);
        }
        other => panic!("{:?}", other),
    }
    assert_eq!(parsed.encode(), encoded);
}

#[test]
fn get_peers_response_needs_nodes_or_values() {
    let values = dict(vec![("id", byte_string(&[1u8; 20])), ("token", byte_string(b"t"))]);
    assert_eq!(
        GetPeersResponse::from_parts(&values, b"gp"),
        Err(DhtError::InvalidResponse {
            trans_id: b"gp".to_vec(),
            details: Detail::NoNodesOrValues
        })
    );
    let values = dict(vec![("id", byte_string(&[1u8; 20])), ("nodes", byte_string(&[0u8; 26]))]);
    let parsed = GetPeersResponse::from_parts(&values, b"gp").unwrap();
    assert_eq!(parsed.token(), None);
    assert!(matches!(parsed.info_type(), CompactInfoType::Nodes(_)));
}

#[test]
fn compact_node_info_is_node_id_and_endpoint() {
    let mut nodes = vec![5u8; 20];
    nodes.extend_from_slice(&[127, 0, 0, 1, 0x1a, 0xe1]);
    let info = CompactNodeInfo::new(&nodes).unwrap();
    assert_eq!(info.len(), 1);
    assert_eq!(info.get(0), Some((id(5), SocketAddrV4::new(Ipv4Addr::new(127, 0, 0, 1), 6881))));
    assert_eq!(info.get(1), None);
    assert_eq!(
        CompactNodeInfo::new(&nodes[..25]),
        Err(LengthError { kind: LengthErrorKind::LengthMultipleExpected, length: 26, index: None })
    );
}

#[test]
fn compact_values_name_the_first_that_is_wrong() {
    let values = vec![byte_string(&[0u8; 6]), byte_string(&[0u8; 5]), Bencode::new_int(1)];
    assert_eq!(
        CompactValueInfo::new(&values),
        Err(LengthError { kind: LengthErrorKind::LengthExpected, length: 6, index: Some(1) })
    );
    let values = vec![byte_string(&[0u8; 6]), Bencode::new_int(1)];
    assert_eq!(
        CompactValueInfo::new(&values),
        Err(LengthError { kind: LengthErrorKind::LengthExpected, length: 6, index: Some(1) })
    );
}

#[test]
fn response_validate_tells_what_is_wrong() {
    let validate = ResponseValidate::new(b"tid");
    assert_eq!(validate.validate_node_id(&[3u8; 20]), Ok(id(3)));
    assert_eq!(
        validate.validate_node_id(&[3u8; 2]),
        Err(DhtError::InvalidResponse {
            trans_id: b"tid".to_vec(),
            details: Detail::NodeIdLength(2)
        })
    );
    assert!(validate.validate_nodes(&[0u8; 52]).is_ok());
    assert_eq!(
        validate.validate_nodes(&[0u8; 27]),
        Err(DhtError::InvalidResponse {
            trans_id: b"tid".to_vec(),
            details: Detail::NodesLength(27)
        })
    );
    let good = vec![byte_string(&[0u8; 6])];
    assert!(validate.validate_values(&good).is_ok());
    let not_bytes = vec![byte_string(&[0u8; 5]), Bencode::new_int(1)];
    assert_eq!(
        validate.validate_values(&not_bytes),
        Err(DhtError::InvalidResponse {
            trans_id: b"tid".to_vec(),
            details: Detail::ValuesNotBytes
        })
    );
    let wrong_length = vec![byte_string(&[0u8; 6]), byte_string(&[0u8; 7])];
    assert_eq!(
        validate.validate_values(&wrong_length),
        Err(DhtError::InvalidResponse { trans_id: b"tid".to_vec(), details: Detail::ValuesLength })
    );
    let lookup = bip::bencode::convert::lookup(&Bencode::new_dict(), b"k").unwrap_err();
    assert!(matches!(
        validate.handle_error(lookup),
        DhtError::InvalidResponse { details: Detail::Convert(_), .. }
    ));
}

#[test]
fn request_validate_tells_what_is_wrong() {
    let validate = RequestValidate::new(b"tid");
    assert_eq!(validate.validate_node_id(&[3u8; 20]), Ok(id(3)));
    assert_eq!(
        validate.validate_info_hash(&[3u8; 1]),
        Err(DhtError::InvalidRequest {
            trans_id: b"tid".to_vec(),
            details: Detail::InfoHashLength(1)
        })
    );
    let lookup = bip::bencode::convert::lookup(&Bencode::new_dict(), b"k").unwrap_err();
    assert!(matches!(
        validate.handle_error(lookup),
        DhtError::InvalidRequest { details: Detail::Convert(_), .. }
    ));
}

#[test]
fn responses_are_read_as_what_is_expected() {
    let message = Bencode::decode(&PingResponse::new(b"aa", id(4)).encode()).unwrap();
    assert_eq!(
        ResponseType::from_parts(&message, b"aa", &ExpectedResponse::Ping),
        Ok(ResponseType::Ping(PingResponse::new(b"aa", id(4))))
    );
    assert_eq!(
        ResponseType::from_parts(&message, b"aa", &ExpectedResponse::AnnouncePeer),
        Ok(ResponseType::AnnouncePeer(AnnouncePeerResponse::new(b"aa", id(4))))
    );
    assert_eq!(
        ResponseType::from_parts(&message, b"aa", &ExpectedResponse::NoResponse),
        Err(DhtError::UnsolicitedResponse)
    );
    assert!(matches!(
        ResponseType::from_parts(&message, b"aa", &ExpectedResponse::FindNode),
        Err(DhtError::InvalidResponse { details: Detail::Convert(_), .. })
    ));
    assert!(matches!(
        ResponseType::from_parts(&Bencode::new_dict(), b"aa", &ExpectedResponse::Ping),
        Err(DhtError::InvalidResponse { details: Detail::Convert(_), .. })
    ));
}

#[test]
fn queries_are_read_by_their_kind() {
    let message = Bencode::decode(&PingRequest::new(b"aa", id(4)).encode()).unwrap();
    assert_eq!(
        RequestType::from_parts(&message, b"aa", b"ping"),
        Ok(RequestType::Ping(PingRequest::new(b"aa", id(4))))
    );
    assert_eq!(
        RequestType::from_parts(&message, b"aa", b"pong"),
        Err(DhtError::InvalidRequest { trans_id: b"aa".to_vec(), details: Detail::UnknownType })
    );
    assert!(RequestType::from_parts(&message, b"aa", b"find_node").is_err());
}

#[test]
fn envelope_dispatches_by_type() {
    let mut table = ExpectedTable::new();
    table.expect(b"aa", ExpectedResponse::Ping);
    assert_eq!(table.len(), 1);
    assert_eq!(table.expected(b"aa"), ExpectedResponse::Ping);
    assert_eq!(table.expected(b"bb"), ExpectedResponse::NoResponse);

    let query = Bencode::decode(&FindNodeRequest::new(b"q1", id(1), id(2)).encode()).unwrap();
    assert_eq!(
        MessageType::new(&query, &table),
        Ok(MessageType::Request(RequestType::FindNode(FindNodeRequest::new(b"q1", id(1), id(2)))))
    );

    let response = Bencode::decode(&PingResponse::new(b"aa", id(4)).encode()).unwrap();
    assert_eq!(
        MessageType::new(&response, &table),
        Ok(MessageType::Response(ResponseType::Ping(PingResponse::new(b"aa", id(4)))))
    );

    let stray = Bencode::decode(&PingResponse::new(b"bb", id(4)).encode()).unwrap();
    assert_eq!(MessageType::new(&stray, &table), Err(DhtError::UnsolicitedResponse));

    assert_eq!(table.close(b"aa"), ExpectedResponse::Ping);
    assert_eq!(MessageType::new(&response, &table), Err(DhtError::UnsolicitedResponse));
    assert_eq!(table.close(b"aa"), ExpectedResponse::NoResponse);
}

#[test]
fn envelope_reports_remote_errors() {
    let table = ExpectedTable::new();
    let error = Bencode::decode(b"d1:eli201e23:A Generic Error Ocurrede1:t2:aa1:y1:ee").unwrap();
    assert_eq!(
        MessageType::new(&error, &table),
        Err(DhtError::InvalidMessage { code: 201, message: b"A Generic Error Ocurred".to_vec() })
    );
    let malformed = Bencode::decode(b"d1:eli201ee1:t2:aa1:y1:ee").unwrap();
    assert_eq!(
        MessageType::new(&malformed, &table),
        Err(DhtError::InvalidResponse {
            trans_id: b"aa".to_vec(),
            details: Detail::MalformedError
        })
    );
    let unknown = Bencode::decode(b"d1:t2:aa1:y1:xe").unwrap();
    assert_eq!(
        MessageType::new(&unknown, &table),
        Err(DhtError::InvalidRequest { trans_id: b"aa".to_vec(), details: Detail::UnknownType })
    );
    assert!(matches!(
        MessageType::new(&Bencode::new_dict(), &table),
        Err(DhtError::InvalidRequest { details: Detail::Convert(_), .. })
    ));
}

#[test]
fn unused_kinds_of_response_are_unknown() {
    let mut table = ExpectedTable::new();
    table.expect(b"aa", ExpectedResponse::GetData);
    let response = Bencode::decode(&PingResponse::new(b"aa", id(4)).encode()).unwrap();
    assert_eq!(
        MessageType::new(&response, &table),
        Err(DhtError::InvalidResponse { trans_id: b"aa".to_vec(), details: Detail::UnknownType })
    );
    table.expect(b"aa", ExpectedResponse::Ping);
    assert_eq!(table.len(), 1);
    assert!(MessageType::new(&response, &table).is_ok());
}
