use bip::bencode::value::Bencode;
use bip::metainfo::builder::{
    build_with_accessor, map_pieces_list, plan_pieces, total_files_len, BuildError, InfoBuilder,
    MetainfoBuilder, PiecePlan,
};
use bip::metainfo::piece_length::{
    calculate_piece_length, determine_piece_length, PieceLength, ALL_OPT_MAX_PIECE_LENGTH,
    BALANCED_MAX_PIECES_SIZE, BALANCED_MIN_PIECE_LENGTH,
};
use bip::metainfo::pieces::PieceCutter;
use bip::util::bt::ShaHash;

const KIB: u64 = 1024;
const MIB: u64 = 1024 * 1024;
const GIB: u64 = 1024 * 1024 * 1024;

fn file(len: u64, path: &[&str]) -> (u64, Vec<String>) {
    (len, path.iter().map(|s| s.to_string()).collect())
}

#[test]
fn balanced_piece_length_of_four_gib_is_four_mib() {
    assert_eq!(determine_piece_length(4 * GIB, &PieceLength::OptBalanced), (4 * MIB) as usize);
    assert_eq!(
        calculate_piece_length(4 * GIB, BALANCED_MAX_PIECES_SIZE, BALANCED_MIN_PIECE_LENGTH),
        (4 * MIB) as usize
    );
}

#[test]
fn piece_length_stays_between_minimum_and_cap() {
    assert_eq!(determine_piece_length(0, &PieceLength::OptBalanced), (512 * KIB) as usize);
    assert_eq!(determine_piece_length(1, &PieceLength::OptFileSize), MIB as usize);
    assert_eq!(determine_piece_length(1, &PieceLength::OptTransfer), KIB as usize);
    assert_eq!(determine_piece_length(u64::MAX, &PieceLength::OptBalanced), ALL_OPT_MAX_PIECE_LENGTH);
    assert_eq!(determine_piece_length(u64::MAX, &PieceLength::OptTransfer), ALL_OPT_MAX_PIECE_LENGTH);
    assert_eq!(determine_piece_length(4 * GIB, &PieceLength::Custom(12345)), 12345);
    assert_eq!(determine_piece_length(4 * GIB, &PieceLength::Custom(0)), 0);
}

#[test]
fn piece_length_is_the_least_power_of_two_within_the_budget() {
    // 3000 pieces allowed: 3000 KiB need pieces of 1 KiB, one byte more needs 2 KiB
    assert_eq!(determine_piece_length(3000 * KIB, &PieceLength::OptTransfer), KIB as usize);
    assert_eq!(determine_piece_length(3000 * KIB + 1, &PieceLength::OptTransfer), 2 * KIB as usize);
    // 1000 pieces allowed
    assert_eq!(determine_piece_length(2000 * MIB, &PieceLength::OptFileSize), 2 * MIB as usize);
    assert_eq!(determine_piece_length(2000 * MIB + 1, &PieceLength::OptFileSize), 4 * MIB as usize);
    assert_eq!(calculate_piece_length(100, 20, 1), 128);
    assert_eq!(calculate_piece_length(100, 40, 1), 64);
    assert_eq!(calculate_piece_length(100, 40, 1000), 1000);
}

#[test]
fn the_law_of_piece_lengths_holds_on_samples() {
    for strategy in [PieceLength::OptBalanced, PieceLength::OptFileSize, PieceLength::OptTransfer] {
        let (max_pieces_size, min) = match strategy {
            PieceLength::OptBalanced => (40000u64, 512 * KIB),
            PieceLength::OptFileSize => (20000, MIB),
            _ => (60000, KIB),
        };
        for size in [0u64, 1, 1023, MIB + 1, 700 * MIB, 4 * GIB, 17 * GIB + 5, 1 << 40] {
            let len = determine_piece_length(size, &strategy) as u64;
            assert!(len.is_power_of_two());
            assert!(len >= min && len <= 16 * MIB);
            if len < 16 * MIB {
                assert!((size + len - 1) / len * 20 <= max_pieces_size);
            }
        }
    }
}

#[test]
fn pieces_are_planned_from_the_total_length() {
    let files = vec![file(3 * MIB, &["a"]), file(MIB + 1, &["b"])];
    assert_eq!(total_files_len(&files), Some(4 * MIB + 1));
    assert_eq!(
        plan_pieces(&files, &PieceLength::OptFileSize),
        Some(PiecePlan { piece_length: MIB as usize, total_num_pieces: 5 })
    );
    assert_eq!(
        plan_pieces(&files, &PieceLength::Custom(4 * MIB as usize + 1)),
        Some(PiecePlan { piece_length: 4 * MIB as usize + 1, total_num_pieces: 1 })
    );
    assert_eq!(plan_pieces(&files, &PieceLength::Custom(0)), None);
    let huge = vec![file(u64::MAX, &["a"]), file(1, &["b"])];
    assert_eq!(total_files_len(&huge), None);
    assert_eq!(plan_pieces(&huge, &PieceLength::OptBalanced), None);
    assert_eq!(
        plan_pieces(&vec![], &PieceLength::OptBalanced),
        Some(PiecePlan { piece_length: 512 * 1024, total_num_pieces: 0 })
    );
}

#[test]
fn piece_hashes_are_joined() {
    let pieces = vec![ShaHash::from_array([1u8; 20]), ShaHash::from_array([2u8; 20])];
    let mut expected = vec![1u8; 20];
    expected.extend_from_slice(&[2u8; 20]);
    assert_eq!(map_pieces_list(&pieces), expected);
    assert!(map_pieces_list(&vec![]).is_empty());
}

#[test]
fn single_file_torrent() {
    let files = vec![file(5, &["dir", "name.txt"])];
    let pieces = vec![ShaHash::from_array([b'h'; 20])];
    let bytes = build_with_accessor(&files, None, &pieces, None, Bencode::new_dict(), 16);
    assert_eq!(
        bytes,
        b"d6:lengthi5e4:name11:dirname.txt12:piece lengthi16e6:pieces20:hhhhhhhhhhhhhhhhhhhhe"
            .to_vec()
    );
}

#[test]
fn multi_file_torrent_with_directory() {
    let files = vec![file(5, &["a"]), file(6, &["b", "c"])];
    let bytes = build_with_accessor(&files, Some("top"), &vec![], None, Bencode::new_dict(), 16);
    assert_eq!(
        bytes,
        b"d5:filesld6:lengthi5e4:pathl1:aeed6:lengthi6e4:pathl1:b1:ceee4:name3:top12:piece lengthi16e6:pieces0:e"
            .to_vec()
    );
    let single = vec![file(5, &["a"])];
    let bytes = build_with_accessor(&single, Some("top"), &vec![], None, Bencode::new_dict(), 16);
    assert_eq!(
        bytes,
        b"d5:filesld6:lengthi5e4:pathl1:aeee4:name3:top12:piece lengthi16e6:pieces0:e".to_vec()
    );
}

#[test]
fn several_files_without_directory_have_an_empty_name() {
    let files = vec![file(5, &["a"]), file(6, &["b"])];
    let bytes = build_with_accessor(&files, None, &vec![], None, Bencode::new_dict(), 16);
    assert_eq!(
        bytes,
        b"d5:filesld6:lengthi5e4:pathl1:aeed6:lengthi6e4:pathl1:beee4:name0:12:piece lengthi16e6:pieces0:e"
            .to_vec()
    );
}

#[test]
fn metainfo_builder_collects_the_optional_keys() {
    let trackers = vec![vec!["udp://a".to_string(), "udp://b".to_string()], vec!["udp://c".to_string()]];
    let builder = MetainfoBuilder::new()
        .set_main_tracker(Some("udp://main"))
        .set_trackers(Some(&trackers))
        .set_creation_date(Some(1234))
        .set_comment(Some("hello"))
        .set_created_by(Some("me"))
        .set_private_flag(Some(true))
        .set_piece_length(PieceLength::Custom(32));
    assert_eq!(builder.get_main_tracker(), Some("udp://main".to_string()));
    assert_eq!(builder.get_trackers(), Some(trackers.clone()));
    assert_eq!(builder.get_creation_date(), Some(1234));
    assert_eq!(builder.get_comment(), Some("hello".to_string()));
    assert_eq!(builder.get_created_by(), Some("me".to_string()));
    let files = vec![file(40, &["f"])];
    assert_eq!(builder.plan(&files), Some(PiecePlan { piece_length: 32, total_num_pieces: 2 }));
    let pieces = vec![ShaHash::from_array([b'1'; 20]), ShaHash::from_array([b'2'; 20])];
    let bytes = builder.build(&files, None, &pieces).unwrap();
    assert_eq!(
        bytes,
        b"d8:announce10:udp://main13:announce-listll7:udp://a7:udp://bel7:udp://cee7:comment5:hello10:created by2:me13:creation datei1234e4:infod6:lengthi40e4:name1:f12:piece lengthi32e6:pieces40:11111111111111111111222222222222222222227:privatei1eee"
            .to_vec()
    );
    let decoded = Bencode::decode(&bytes).unwrap();
    assert_eq!(decoded.encode(), bytes);
}

#[test]
fn metainfo_builder_unsets_keys() {
    let builder = MetainfoBuilder::new()
        .set_comment(Some("hello"))
        .set_comment(None)
        .set_main_tracker(None)
        .set_private_flag(Some(false))
        .set_private_flag(None);
    assert_eq!(builder.get_comment(), None);
    assert_eq!(builder.get_main_tracker(), None);
    assert_eq!(builder.get_trackers(), None);
    assert_eq!(builder.get_creation_date(), None);
    assert_eq!(builder.get_created_by(), None);
    let bytes = builder
        .set_piece_length(PieceLength::Custom(8))
        .build(&vec![file(1, &["f"])], None, &vec![])
        .unwrap();
    assert_eq!(bytes, b"d4:infod6:lengthi1e4:name1:f12:piece lengthi8e6:pieces0:ee".to_vec());
}

#[test]
fn private_flag_is_zero_or_one() {
    let files = vec![file(1, &["f"])];
    let on = InfoBuilder::new()
        .set_private_flag(Some(true))
        .set_piece_length(PieceLength::Custom(8))
        .build(&files, None, &vec![])
        .unwrap();
    assert_eq!(on, b"d6:lengthi1e4:name1:f12:piece lengthi8e6:pieces0:7:privatei1ee".to_vec());
    let off = InfoBuilder::new()
        .set_private_flag(Some(false))
        .set_piece_length(PieceLength::Custom(8))
        .build(&files, None, &vec![])
        .unwrap();
    assert_eq!(off, b"d6:lengthi1e4:name1:f12:piece lengthi8e6:pieces0:7:privatei0ee".to_vec());
}

#[test]
fn info_builder_uses_the_planned_piece_length() {
    let files = vec![file(3 * MIB, &["f"])];
    let builder = InfoBuilder::new();
    assert_eq!(
        builder.plan(&files),
        Some(PiecePlan { piece_length: 512 * 1024, total_num_pieces: 6 })
    );
    let bytes = builder.build(&files, None, &vec![]).unwrap();
    assert_eq!(
        bytes,
        b"d6:lengthi3145728e4:name1:f12:piece lengthi524288e6:pieces0:e".to_vec()
    );
}

#[test]
fn builds_fail_on_input_that_cannot_be_written() {
    let pieces = vec![];
    assert_eq!(
        InfoBuilder::new().build(&vec![file(u64::MAX, &["a"]), file(1, &["b"])], None, &pieces),
        Err(BuildError::TotalLengthOverflow)
    );
    assert_eq!(
        InfoBuilder::new()
            .set_piece_length(PieceLength::Custom(0))
            .build(&vec![file(1, &["a"])], None, &pieces),
        Err(BuildError::ZeroPieceLength)
    );
    assert_eq!(
        InfoBuilder::new().build(&vec![file(1 << 63, &["a"])], None, &pieces),
        Err(BuildError::LengthOutOfRange)
    );
    assert_eq!(InfoBuilder::new().build(&vec![], None, &pieces), Err(BuildError::NoFiles));
    assert!(MetainfoBuilder::new().build(&vec![], Some("dir"), &pieces).is_ok());
    assert_eq!(MetainfoBuilder::new().build(&vec![], None, &pieces), Err(BuildError::NoFiles));
}

#[test]
fn pieces_are_cut_at_their_length() {
    assert!(PieceCutter::new(0).is_none());
    let mut cutter = PieceCutter::new(4).unwrap();
    assert_eq!(cutter.feed(b"ab"), Vec::<Vec<u8>>::new());
    assert_eq!(cutter.feed(b"cdefghij"), vec![b"abcd".to_vec(), b"efgh".to_vec()]);
    assert_eq!(cutter.feed(b"kl"), vec![b"ijkl".to_vec()]);
    assert_eq!(cutter.feed(b""), Vec::<Vec<u8>>::new());
    assert_eq!(cutter.feed(b"m"), Vec::<Vec<u8>>::new());
    assert_eq!(cutter.finish(), Some(b"m".to_vec()));
    let mut exact = PieceCutter::new(2).unwrap();
    assert_eq!(exact.feed(b"abcd"), vec![b"ab".to_vec(), b"cd".to_vec()]);
    assert_eq!(exact.finish(), None);
}
