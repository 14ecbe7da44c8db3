use bip::bencode::convert::{
    convert_bytes, convert_dict, convert_int, convert_list, lookup, lookup_and_convert_bytes,
    lookup_and_convert_dict, lookup_and_convert_int, lookup_and_convert_list, ConvertErrorKind,
    ExpectedKind,
};
use bip::bencode::decode::{decode_value, BencodeParseError};
use bip::bencode::order::bytes_less;
use bip::bencode::value::Bencode;

fn byte_string(text: &str) -> Bencode {
    Bencode::new_bytes(text.as_bytes().to_vec())
}

fn dict(entries: Vec<(&str, Bencode)>) -> Bencode {
    let mut d = Bencode::new_dict();
    for (key, value) in entries {
        d.insert(key.as_bytes().to_vec(), value);
    }
    d
}

fn list(items: Vec<Bencode>) -> Bencode {
    let mut l = Bencode::new_list();
    for item in items {
        l.push(item);
    }
    l
}

#[test]
fn integers_encode_in_decimal() {
    assert_eq!(Bencode::new_int(0).encode(), b"i0e");
    assert_eq!(Bencode::new_int(42).encode(), b"i42e");
    assert_eq!(Bencode::new_int(-7).encode(), b"i-7e");
    assert_eq!(Bencode::new_int(i64::MAX).encode(), b"i9223372036854775807e");
    assert_eq!(Bencode::new_int(i64::MIN).encode(), b"i-9223372036854775808e");
}

#[test]
fn byte_strings_encode_with_their_length() {
    assert_eq!(byte_string("").encode(), b"0:");
    assert_eq!(byte_string("spam").encode(), b"4:spam");
    assert_eq!(byte_string("0123456789").encode(), b"10:0123456789");
}

#[test]
fn lists_and_dictionaries_encode_between_their_marks() {
    assert_eq!(list(vec![]).encode(), b"le");
    assert_eq!(list(vec![byte_string("a"), Bencode::new_int(1)]).encode(), b"l1:ai1ee");
    assert_eq!(dict(vec![]).encode(), b"de");
    assert_eq!(
        dict(vec![("b", Bencode::new_int(2)), ("a", list(vec![]))]).encode(),
        b"d1:ale1:bi2ee"
    );
}

#[test]
fn dictionaries_keep_their_keys_sorted() {
    let d = dict(vec![
        ("zz", Bencode::new_int(1)),
        ("a", Bencode::new_int(2)),
        ("ab", Bencode::new_int(3)),
        ("", Bencode::new_int(4)),
    ]);
    assert_eq!(d.encode(), b"d0:i4e1:ai2e2:abi3e2:zzi1ee");
}

#[test]
fn insert_replaces_and_remove_takes_out() {
    let mut d = dict(vec![("a", Bencode::new_int(1))]);
    assert_eq!(d.insert(b"a".to_vec(), Bencode::new_int(2)), Some(Bencode::new_int(1)));
    assert_eq!(d.insert(b"b".to_vec(), Bencode::new_int(3)), None);
    assert_eq!(d.lookup(b"a"), Some(&Bencode::new_int(2)));
    assert_eq!(d.remove(b"a"), Some(Bencode::new_int(2)));
    assert_eq!(d.remove(b"a"), None);
    assert_eq!(d.lookup(b"a"), None);
    assert_eq!(d.encode(), b"d1:bi3ee");
}

#[test]
fn decode_gives_back_what_was_encoded() {
    let value = dict(vec![
        ("list", list(vec![Bencode::new_int(-3), byte_string("x"), list(vec![]), dict(vec![])])),
        ("int", Bencode::new_int(0)),
        ("bytes", Bencode::new_bytes(vec![0, 255, b'e', b':'])),
    ]);
    let encoded = value.encode();
    assert_eq!(Bencode::decode(&encoded), Ok(value.duplicate()));
    assert_eq!(value.duplicate(), value);
}

#[test]
fn decode_sorts_the_keys_of_what_it_reads() {
    let decoded = Bencode::decode(b"d1:bi1e1:ai2ee").unwrap();
    assert_eq!(decoded.encode(), b"d1:ai2e1:bi1ee");
    assert_eq!(Bencode::decode(&decoded.encode()), Ok(decoded));
}

#[test]
fn canonical_input_is_written_again_byte_for_byte() {
    let input: &[u8] = b"d4:infod6:lengthi12e4:name3:abc12:piece lengthi4e6:pieces0:ee";
    assert_eq!(Bencode::decode(input).unwrap().encode(), input);
}

#[test]
fn decode_refuses_what_is_not_canonical() {
    assert_eq!(Bencode::decode(b""), Err(BencodeParseError::Truncated));
    assert_eq!(Bencode::decode(b"i12"), Err(BencodeParseError::Truncated));
    assert_eq!(Bencode::decode(b"4:abc"), Err(BencodeParseError::Truncated));
    assert_eq!(Bencode::decode(b"l"), Err(BencodeParseError::Truncated));
    assert_eq!(Bencode::decode(b"d1:a"), Err(BencodeParseError::Truncated));
    assert_eq!(Bencode::decode(b"x"), Err(BencodeParseError::InvalidByte));
    assert_eq!(Bencode::decode(b"ie"), Err(BencodeParseError::InvalidByte));
    assert_eq!(Bencode::decode(b"i1x"), Err(BencodeParseError::InvalidByte));
    assert_eq!(Bencode::decode(b"i+1e"), Err(BencodeParseError::InvalidByte));
    assert_eq!(Bencode::decode(b"1x"), Err(BencodeParseError::InvalidByte));
    assert_eq!(Bencode::decode(b"di1ei2ee"), Err(BencodeParseError::InvalidByte));
    assert_eq!(Bencode::decode(b"i01e"), Err(BencodeParseError::InvalidNumber));
    assert_eq!(Bencode::decode(b"i-0e"), Err(BencodeParseError::InvalidNumber));
    assert_eq!(Bencode::decode(b"i-01e"), Err(BencodeParseError::InvalidNumber));
    assert_eq!(Bencode::decode(b"01:a"), Err(BencodeParseError::InvalidNumber));
    assert_eq!(Bencode::decode(b"i9223372036854775808e"), Err(BencodeParseError::InvalidNumber));
    assert_eq!(Bencode::decode(b"i-9223372036854775809e"), Err(BencodeParseError::InvalidNumber));
    assert_eq!(
        Bencode::decode(b"i99999999999999999999999999999999e"),
        Err(BencodeParseError::InvalidNumber)
    );
    assert_eq!(Bencode::decode(b"d1:ai1e1:ai2ee"), Err(BencodeParseError::DuplicateKey));
    assert_eq!(Bencode::decode(b"i1ei2e"), Err(BencodeParseError::TrailingBytes));
    assert_eq!(Bencode::decode(b"99999999999999999999:a"), Err(BencodeParseError::Truncated));
}

#[test]
fn decode_accepts_the_extremes_of_integers() {
    assert_eq!(Bencode::decode(b"i9223372036854775807e"), Ok(Bencode::new_int(i64::MAX)));
    assert_eq!(Bencode::decode(b"i-9223372036854775808e"), Ok(Bencode::new_int(i64::MIN)));
    assert_eq!(Bencode::decode(b"i0e"), Ok(Bencode::new_int(0)));
    assert_eq!(Bencode::decode(b"0:"), Ok(byte_string("")));
}

#[test]
fn nesting_is_limited() {
    let mut deep = Vec::new();
    deep.extend(std::iter::repeat(b'l').take(50));
    deep.extend(std::iter::repeat(b'e').take(50));
    assert!(Bencode::decode(&deep).is_ok());
    let mut deeper = Vec::new();
    deeper.extend(std::iter::repeat(b'l').take(51));
    deeper.extend(std::iter::repeat(b'e').take(51));
    assert_eq!(Bencode::decode(&deeper), Err(BencodeParseError::DepthExceeded));
    assert_eq!(decode_value(b"lee", 0, 0), Err(BencodeParseError::DepthExceeded));
    assert_eq!(decode_value(b"xxi5e", 2, 0), Ok((Bencode::new_int(5), 5)));
}

#[test]
fn keys_order_byte_by_byte() {
    assert!(bytes_less(b"", b"a"));
    assert!(bytes_less(b"a", b"ab"));
    assert!(bytes_less(b"ab", b"b"));
    assert!(!bytes_less(b"b", b"ab"));
    assert!(!bytes_less(b"a", b"a"));
    assert!(bytes_less(&[0x7f], &[0x80]));
}

#[test]
fn accessors_tell_the_kind() {
    assert_eq!(Bencode::new_int(3).as_int(), Some(3));
    assert_eq!(byte_string("a").as_int(), None);
    assert_eq!(byte_string("a").as_bytes(), Some(&b"a"[..]));
    assert_eq!(Bencode::new_int(3).as_bytes(), None);
    assert!(list(vec![]).as_list().is_some());
    assert!(dict(vec![]).as_list().is_none());
    assert!(dict(vec![]).as_dict().is_some());
    assert!(list(vec![]).as_dict().is_none());
    assert_eq!(list(vec![]).lookup(b"a"), None);
}

#[test]
fn failed_lookups_carry_key_and_kind() {
    let d = dict(vec![
        ("i", Bencode::new_int(1)),
        ("b", byte_string("x")),
        ("l", list(vec![])),
        ("d", dict(vec![])),
    ]);
    assert_eq!(lookup_and_convert_int(&d, b"i"), Ok(1));
    assert_eq!(lookup_and_convert_bytes(&d, b"b"), Ok(&b"x"[..]));
    assert!(lookup_and_convert_list(&d, b"l").is_ok());
    assert!(lookup_and_convert_dict(&d, b"d").is_ok());
    let missing = lookup_and_convert_int(&d, b"nope").unwrap_err();
    assert_eq!(missing.kind(), ConvertErrorKind::MissingKey);
    assert_eq!(missing.key(), b"nope");
    let wrong = lookup_and_convert_int(&d, b"b").unwrap_err();
    assert_eq!(wrong.kind(), ConvertErrorKind::WrongType(ExpectedKind::Int));
    assert_eq!(wrong.key(), b"b");
    assert_eq!(
        lookup_and_convert_bytes(&d, b"i").unwrap_err().kind(),
        ConvertErrorKind::WrongType(ExpectedKind::Bytes)
    );
    assert_eq!(
        lookup_and_convert_list(&d, b"i").unwrap_err().kind(),
        ConvertErrorKind::WrongType(ExpectedKind::List)
    );
    assert_eq!(
        lookup_and_convert_dict(&d, b"i").unwrap_err().kind(),
        ConvertErrorKind::WrongType(ExpectedKind::Dict)
    );
    assert!(lookup(&d, b"i").is_ok());
    assert_eq!(lookup(&Bencode::new_int(1), b"i").unwrap_err().kind(), ConvertErrorKind::MissingKey);
    assert_eq!(convert_int(&Bencode::new_int(5), b"k"), Ok(5));
    assert!(convert_bytes(&Bencode::new_int(5), b"k").is_err());
    assert!(convert_list(&Bencode::new_int(5), b"k").is_err());
    assert!(convert_dict(&Bencode::new_int(5), b"k").is_err());
}
