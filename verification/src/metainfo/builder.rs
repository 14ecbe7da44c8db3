//! Builders for metainfo files and info dictionaries.
//!
//! A builder collects the optional keys. Reading the files and hashing their
//! pieces is the caller's work: the caller asks [`plan_pieces`] how long a
//! piece is and how many there are, hashes, and hands files, directory and
//! hashes to `build`.

use crate::bencode::encode::encode_value;
use crate::bencode::value::{insert_entry, remove_entry, value_wf, Bencode, BencodeValue, Entries};
use crate::bencode::text::{key_bytes, key_of, text_model, text_value};
use crate::metainfo::parse::{
    announce_list_under, convert_announce_list, int_under, parse_announce_list,
    parse_announce_url, parse_comment, parse_created_by, parse_creation_date,
    text_under, tiers_model, ANNOUNCE_LIST_KEY, ANNOUNCE_URL_KEY, COMMENT_KEY,
    CREATED_BY_KEY, CREATION_DATE_KEY, FILES_KEY, INFO_KEY, LENGTH_KEY, NAME_KEY, PATH_KEY,
    PIECES_KEY, PIECE_LENGTH_KEY, PRIVATE_KEY,
};
use crate::metainfo::piece_length::{
    ceil_div, determine_piece_length, determined_piece_length, PieceLength,
};
use crate::util::bt::ShaHash;
use crate::util::convert::extend_bytes;
use vstd::prelude::*;
use vstd::string::*;

verus! {

/// The byte strings of the texts `texts`, one for one.
pub open spec fn texts_model(texts: Seq<String>) -> Seq<BencodeValue> {
    Seq::new(texts.len(), |i: int| text_model(texts[i]@))
}

/// The lists of byte strings of the tiers `tiers`, one for one.
pub open spec fn tiers_value(tiers: Seq<Vec<String>>) -> Seq<BencodeValue> {
    Seq::new(tiers.len(), |i: int| BencodeValue::List(texts_model(tiers[i]@)))
}

/// The texts of `parts`, joined without a separator.
pub open spec fn joined(parts: Seq<String>) -> Seq<char>
    decreases parts.len(),
{
    if parts.len() == 0 {
        Seq::empty()
    } else {
        joined(parts.drop_last()) + parts.last()@
    }
}

/// The hashes `pieces`, one after the other.
pub open spec fn concat_hashes(pieces: Seq<ShaHash>) -> Seq<u8>
    decreases pieces.len(),
{
    if pieces.len() == 0 {
        Seq::empty()
    } else {
        concat_hashes(pieces.drop_last()) + pieces.last()@
    }
}

/// The sum of the lengths of `files`.
pub open spec fn total_length(files: Seq<(u64, Vec<String>)>) -> nat
    decreases files.len(),
{
    if files.len() == 0 {
        0
    } else {
        total_length(files.drop_last()) + files.last().0 as nat
    }
}

/// The dictionary of one file of a multi-file torrent: its length and the
/// components of its path.
pub open spec fn file_value(file: (u64, Vec<String>)) -> BencodeValue {
    BencodeValue::Dict(
        insert_entry(
            insert_entry(Seq::empty(), key_of(LENGTH_KEY), BencodeValue::Int(file.0 as i64)),
            key_of(PATH_KEY),
            BencodeValue::List(texts_model(file.1@)),
        ),
    )
}

/// The dictionaries of `files`, one for one.
pub open spec fn files_value(files: Seq<(u64, Vec<String>)>) -> Seq<BencodeValue> {
    Seq::new(files.len(), |i: int| file_value(files[i]))
}

/// The finished info dictionary. `info` holds the optional keys. Piece length
/// and piece hashes are stored first. With a directory, or with more than one
/// file, the torrent is a multi-file one, named after the directory (with the
/// empty name where there is none); otherwise it is the single file, named by
/// the components of its path joined.
pub open spec fn finished_info(
    info: Entries,
    files: Seq<(u64, Vec<String>)>,
    directory: Option<Seq<char>>,
    pieces: Seq<ShaHash>,
    piece_length: usize,
) -> Entries {
    let hashed = insert_entry(
        insert_entry(info, key_of(PIECE_LENGTH_KEY), BencodeValue::Int(piece_length as i64)),
        key_of(PIECES_KEY),
        BencodeValue::Bytes(concat_hashes(pieces)),
    );
    match directory {
        Some(name) => insert_entry(
            insert_entry(hashed, key_of(NAME_KEY), text_model(name)),
            key_of(FILES_KEY),
            BencodeValue::List(files_value(files)),
        ),
        None => if files.len() > 1 {
            insert_entry(
                insert_entry(hashed, key_of(NAME_KEY), text_model(Seq::empty())),
                key_of(FILES_KEY),
                BencodeValue::List(files_value(files)),
            )
        } else {
            insert_entry(
                insert_entry(hashed, key_of(LENGTH_KEY), BencodeValue::Int(files[0].0 as i64)),
                key_of(NAME_KEY),
                text_model(joined(files[0].1@)),
            )
        },
    }
}

/// The finished file: the root dictionary with the finished info dictionary
/// under its key, or the info dictionary alone where there is no root.
pub open spec fn finished_file(
    root: Option<Entries>,
    info: Entries,
    files: Seq<(u64, Vec<String>)>,
    directory: Option<Seq<char>>,
    pieces: Seq<ShaHash>,
    piece_length: usize,
) -> BencodeValue {
    let done = finished_info(info, files, directory, pieces, piece_length);
    match root {
        Some(entries) => BencodeValue::Dict(
            insert_entry(entries, key_of(INFO_KEY), BencodeValue::Dict(done)),
        ),
        None => BencodeValue::Dict(done),
    }
}

/// Whether a file can be built from these: every length fits a bencode
/// integer, and a torrent without a directory has at least one file.
pub open spec fn buildable(
    files: Seq<(u64, Vec<String>)>,
    directory: Option<Seq<char>>,
    piece_length: usize,
) -> bool {
    &&& piece_length <= i64::MAX
    &&& forall|i: int| 0 <= i < files.len() ==> (#[trigger] files[i]).0 <= i64::MAX
    &&& directory is None ==> files.len() >= 1
}

/// How the data is cut into pieces: the length of a piece and their number.
#[derive(Copy, Clone, Debug, PartialEq, Eq, Structural)]
pub struct PiecePlan {
    pub piece_length: usize,
    pub total_num_pieces: u64,
}

/// Map the pieces list into a list of bytes (byte string).
pub fn map_pieces_list(pieces: &Vec<ShaHash>) -> (r: Vec<u8>)
    ensures
        r@ == concat_hashes(pieces@),
        r@.len() == 20 * pieces@.len(),
{
    let mut concated_pieces: Vec<u8> = Vec::new();
    let mut i: usize = 0;
    assert(pieces@.subrange(0, 0) =~= Seq::<ShaHash>::empty());
    while i < pieces.len()
        invariant
            i <= pieces.len(),
            concated_pieces@ == concat_hashes(pieces@.subrange(0, i as int)),
            concated_pieces@.len() == 20 * i,
        decreases pieces.len() - i,
    {
        proof {
            assert(pieces@.subrange(0, i + 1).drop_last() =~= pieces@.subrange(0, i as int));
            assert(pieces@.subrange(0, i + 1).last() == pieces@[i as int]);
        }
        extend_bytes(&mut concated_pieces, pieces[i].as_bytes());
        i += 1;
    }
    assert(pieces@.subrange(0, pieces.len() as int) =~= pieces@);
    concated_pieces
}

/// The byte strings of `texts` as a list.
fn texts_list(texts: &Vec<String>) -> (r: Bencode)
    ensures
        r@ == BencodeValue::List(texts_model(texts@)),
        r.wf(),
{
    let mut list: Vec<Bencode> = Vec::new();
    let mut i: usize = 0;
    while i < texts.len()
        invariant
            i <= texts.len(),
            list@.len() == i,
            forall|j: int| 0 <= j < i ==> (#[trigger] list@[j])@ == text_model(texts@[j]@),
        decreases texts.len() - i,
    {
        list.push(text_value(texts[i].as_str()));
        i += 1;
    }
    let r = Bencode::List(list);
    assert(r@->List_0 =~= texts_model(texts@));
    assert forall|j: int| 0 <= j < r@->List_0.len() implies value_wf(#[trigger] r@->List_0[j]) by {
        assert(r@->List_0[j] == text_model(texts@[j]@));
    }
    r
}

/// The lists of byte strings of `tiers` as a list.
fn tiers_list(tiers: &Vec<Vec<String>>) -> (r: Bencode)
    ensures
        r@ == BencodeValue::List(tiers_value(tiers@)),
        r.wf(),
{
    let mut list: Vec<Bencode> = Vec::new();
    let mut i: usize = 0;
    while i < tiers.len()
        invariant
            i <= tiers.len(),
            list@.len() == i,
            forall|j: int|
                0 <= j < i ==> (#[trigger] list@[j])@ == BencodeValue::List(
                    texts_model(tiers@[j]@),
                ) && list@[j].wf(),
        decreases tiers.len() - i,
    {
        list.push(texts_list(&tiers[i]));
        i += 1;
    }
    let r = Bencode::List(list);
    assert(r@->List_0 =~= tiers_value(tiers@));
    assert forall|j: int| 0 <= j < r@->List_0.len() implies value_wf(#[trigger] r@->List_0[j]) by {
        assert(r@->List_0[j] == list@[j]@);
    }
    r
}

/// The dictionaries of `files` as a list.
fn files_list(files: &Vec<(u64, Vec<String>)>) -> (r: Bencode)
    requires
        forall|i: int| 0 <= i < files@.len() ==> (#[trigger] files@[i]).0 <= i64::MAX,
    ensures
        r@ == BencodeValue::List(files_value(files@)),
        r.wf(),
{
    let mut list: Vec<Bencode> = Vec::new();
    let mut i: usize = 0;
    while i < files.len()
        invariant
            i <= files.len(),
            list@.len() == i,
            forall|i: int| 0 <= i < files@.len() ==> (#[trigger] files@[i]).0 <= i64::MAX,
            forall|j: int|
                0 <= j < i ==> (#[trigger] list@[j])@ == file_value(files@[j]) && list@[j].wf(),
        decreases files.len() - i,
    {
        let mut file = Bencode::new_dict();
        assert(files@[i as int].0 <= i64::MAX);
        file.insert(key_bytes(LENGTH_KEY), Bencode::new_int(files[i].0 as i64));
        file.insert(key_bytes(PATH_KEY), texts_list(&files[i].1));
        list.push(file);
        i += 1;
    }
    let r = Bencode::List(list);
    assert(r@->List_0 =~= files_value(files@));
    assert forall|j: int| 0 <= j < r@->List_0.len() implies value_wf(#[trigger] r@->List_0[j]) by {
        assert(r@->List_0[j] == list@[j]@);
    }
    r
}

/// The components of a path joined into one text.
fn join_components(parts: &Vec<String>) -> (r: String)
    ensures
        r@ == joined(parts@),
{
    let mut name = String::new();
    let mut i: usize = 0;
    assert(parts@.subrange(0, 0) =~= Seq::<String>::empty());
    while i < parts.len()
        invariant
            i <= parts.len(),
            name@ == joined(parts@.subrange(0, i as int)),
        decreases parts.len() - i,
    {
        proof {
            assert(parts@.subrange(0, i + 1).drop_last() =~= parts@.subrange(0, i as int));
            assert(parts@.subrange(0, i + 1).last() == parts@[i as int]);
        }
        name.append(parts[i].as_str());
        i += 1;
    }
    assert(parts@.subrange(0, parts.len() as int) =~= parts@);
    name
}

/// The total length of `files`, where it fits 64 bits.
pub fn total_files_len(files: &Vec<(u64, Vec<String>)>) -> (r: Option<u64>)
    ensures
        r == (if total_length(files@) <= u64::MAX {
            Some(total_length(files@) as u64)
        } else {
            None
        }),
{
    let mut total: u64 = 0;
    let mut i: usize = 0;
    assert(files@.subrange(0, 0) =~= Seq::<(u64, Vec<String>)>::empty());
    while i < files.len()
        invariant
            i <= files.len(),
            total == total_length(files@.subrange(0, i as int)),
        decreases files.len() - i,
    {
        proof {
            assert(files@.subrange(0, i + 1).drop_last() =~= files@.subrange(0, i as int));
            assert(files@.subrange(0, i + 1).last() == files@[i as int]);
        }
        if files[i].0 > u64::MAX - total {
            proof {
                lemma_total_length_grows(files@, i + 1);
            }
            return None;
        }
        total = total + files[i].0;
        i += 1;
    }
    assert(files@.subrange(0, files.len() as int) =~= files@);
    Some(total)
}

/// The total length of the first `n` files is not above that of all.
proof fn lemma_total_length_grows(files: Seq<(u64, Vec<String>)>, n: int)
    requires
        0 <= n <= files.len(),
    ensures
        total_length(files.subrange(0, n)) <= total_length(files),
    decreases files.len() - n,
{
    if n == files.len() {
        assert(files.subrange(0, n) =~= files);
    } else {
        lemma_total_length_grows(files, n + 1);
        assert(files.subrange(0, n + 1).drop_last() =~= files.subrange(0, n));
    }
}

/// The plan for `files` under the setting `piece_length`: the final piece
/// length, and the number of pieces, which is the total length divided by it,
/// rounded up. There is none where the total length exceeds 64 bits or the
/// piece length is zero.
pub open spec fn planned(files: Seq<(u64, Vec<String>)>, piece_length: PieceLength) -> Option<
    PiecePlan,
> {
    let total = total_length(files);
    let length = determined_piece_length(total, piece_length);
    if total <= u64::MAX && length > 0 {
        Some(
            PiecePlan {
                piece_length: length as usize,
                total_num_pieces: ceil_div(total, length) as u64,
            },
        )
    } else {
        None
    }
}

/// Plans the pieces for `files` under the setting `piece_length`.
pub fn plan_pieces(files: &Vec<(u64, Vec<String>)>, piece_length: &PieceLength) -> (r: Option<
    PiecePlan,
>)
    ensures
        r == planned(files@, *piece_length),
{
    let total = match total_files_len(files) {
        Some(total) => total,
        None => {
            return None;
        },
    };
    let length = determine_piece_length(total, piece_length);
    if length == 0 {
        return None;
    }
    let whole = total / (length as u64);
    assert(total % (length as u64) != 0 ==> whole < u64::MAX) by (nonlinear_arith)
        requires
            length > 0,
            whole == total / (length as u64),
            total <= u64::MAX,
    ;
    let total_num_pieces = if total % (length as u64) == 0 {
        whole
    } else {
        whole + 1
    };
    assert(total_num_pieces == ceil_div(total as nat, length as nat)) by (nonlinear_arith)
        requires
            length > 0,
            whole == total / (length as u64),
            total_num_pieces == (if total % (length as u64) == 0 {
                whole
            } else {
                (whole + 1) as u64
            }),
            whole < u64::MAX || total % (length as u64) == 0,
    ;
    Some(PiecePlan { piece_length: length, total_num_pieces })
}

/// Assembles the file from what the accessor reported (`files_info`,
/// `access_directory`), the piece hashes, the optional root dictionary, the
/// info dictionary with its optional keys, and the final piece length.
pub fn build_with_accessor(
    files_info: &Vec<(u64, Vec<String>)>,
    access_directory: Option<&str>,
    pieces: &Vec<ShaHash>,
    opt_root: Option<Bencode>,
    info: Bencode,
    piece_length: usize,
) -> (r: Vec<u8>)
    requires
        info@ is Dict,
        opt_root matches Some(root) ==> root@ is Dict,
        buildable(
            files_info@,
            match access_directory {
                Some(name) => Some(name@),
                None => None,
            },
            piece_length,
        ),
    ensures
        r@ == encode_value(
            finished_file(
                match opt_root {
                    Some(root) => Some(root@->Dict_0),
                    None => None,
                },
                info@->Dict_0,
                files_info@,
                match access_directory {
                    Some(name) => Some(name@),
                    None => None,
                },
                pieces@,
                piece_length,
            ),
        ),
{
    let mut info = info;
    info.insert(key_bytes(PIECE_LENGTH_KEY), Bencode::new_int(piece_length as i64));
    info.insert(key_bytes(PIECES_KEY), Bencode::new_bytes(map_pieces_list(pieces)));
    // With a directory, or with several files, build a multi file torrent; a
    // missing directory then leaves the name empty.
    match access_directory {
        Some(directory) => {
            info.insert(key_bytes(NAME_KEY), text_value(directory));
            info.insert(key_bytes(FILES_KEY), files_list(files_info));
        },
        None => {
            if files_info.len() > 1 {
                info.insert(key_bytes(NAME_KEY), text_value(""));
                proof {
                    reveal_strlit("");
                    assert(""@ =~= Seq::<char>::empty());
                }
                info.insert(key_bytes(FILES_KEY), files_list(files_info));
            } else {
                assert(files_info@[0].0 <= i64::MAX);
                let single_file_name = join_components(&files_info[0].1);
                info.insert(key_bytes(LENGTH_KEY), Bencode::new_int(files_info[0].0 as i64));
                info.insert(key_bytes(NAME_KEY), text_value(single_file_name.as_str()));
            }
        },
    }
    match opt_root {
        Some(root) => {
            let mut root = root;
            root.insert(key_bytes(INFO_KEY), info);
            root.encode()
        },
        None => info.encode(),
    }
}

/// Why no file can be built from what was handed in.
#[derive(Copy, Clone, Debug, PartialEq, Eq, Structural)]
pub enum BuildError {
    /// The lengths of the files add up to more than 64 bits hold.
    TotalLengthOverflow,
    /// The custom piece length is zero.
    ZeroPieceLength,
    /// A file's length or the piece length is more than a bencode integer holds.
    LengthOutOfRange,
    /// There is neither a directory nor a file.
    NoFiles,
}

/// What is wrong with the input of a build, if anything; the first that
/// applies, in the order of [`BuildError`].
pub open spec fn build_fault(
    files: Seq<(u64, Vec<String>)>,
    directory: Option<Seq<char>>,
    piece_length: PieceLength,
) -> Option<BuildError> {
    let total = total_length(files);
    let length = determined_piece_length(total, piece_length);
    if total > u64::MAX {
        Some(BuildError::TotalLengthOverflow)
    } else if length == 0 {
        Some(BuildError::ZeroPieceLength)
    } else if length > i64::MAX || exists|i: int|
        0 <= i < files.len() && (#[trigger] files[i]).0 > i64::MAX {
        Some(BuildError::LengthOutOfRange)
    } else if directory is None && files.len() == 0 {
        Some(BuildError::NoFiles)
    } else {
        None
    }
}

/// What a build returns: the fault of its input, or else the encoding of the
/// finished file with the planned piece length.
pub open spec fn build_outcome(
    root: Option<Entries>,
    info: Entries,
    files: Seq<(u64, Vec<String>)>,
    directory: Option<Seq<char>>,
    pieces: Seq<ShaHash>,
    piece_length: PieceLength,
) -> Result<Seq<u8>, BuildError> {
    match build_fault(files, directory, piece_length) {
        Some(fault) => Err(fault),
        None => Ok(
            encode_value(
                finished_file(
                    root,
                    info,
                    files,
                    directory,
                    pieces,
                    determined_piece_length(total_length(files), piece_length) as usize,
                ),
            ),
        ),
    }
}

/// The contents of a byte vector that may have been returned.
pub open spec fn built_view(r: Result<Vec<u8>, BuildError>) -> Result<Seq<u8>, BuildError> {
    match r {
        Ok(bytes) => Ok(bytes@),
        Err(fault) => Err(fault),
    }
}

/// The text that an optional text holds.
pub open spec fn opt_text(text: Option<&str>) -> Option<Seq<char>> {
    match text {
        Some(t) => Some(t@),
        None => None,
    }
}

/// Whether every file's length fits a bencode integer.
fn lengths_in_range(files: &Vec<(u64, Vec<String>)>) -> (r: bool)
    ensures
        r == !(exists|i: int| 0 <= i < files@.len() && (#[trigger] files@[i]).0 > i64::MAX),
{
    let mut i: usize = 0;
    while i < files.len()
        invariant
            i <= files.len(),
            forall|j: int| 0 <= j < i ==> (#[trigger] files@[j]).0 <= i64::MAX,
        decreases files.len() - i,
    {
        if files[i].0 > i64::MAX as u64 {
            return false;
        }
        i += 1;
    }
    true
}

/// Checks the input of a build, then assembles the file.
fn build_checked(
    files_info: &Vec<(u64, Vec<String>)>,
    access_directory: Option<&str>,
    pieces: &Vec<ShaHash>,
    opt_root: Option<Bencode>,
    info: Bencode,
    piece_length: PieceLength,
) -> (r: Result<Vec<u8>, BuildError>)
    requires
        info@ is Dict,
        opt_root matches Some(root) ==> root@ is Dict,
    ensures
        built_view(r) == build_outcome(
            match opt_root {
                Some(root) => Some(root@->Dict_0),
                None => None,
            },
            info@->Dict_0,
            files_info@,
            opt_text(access_directory),
            pieces@,
            piece_length,
        ),
{
    let total = match total_files_len(files_info) {
        Some(total) => total,
        None => {
            return Err(BuildError::TotalLengthOverflow);
        },
    };
    let length = determine_piece_length(total, &piece_length);
    if length == 0 {
        return Err(BuildError::ZeroPieceLength);
    }
    if length as u64 > i64::MAX as u64 || !lengths_in_range(files_info) {
        return Err(BuildError::LengthOutOfRange);
    }
    if access_directory.is_none() && files_info.len() == 0 {
        return Err(BuildError::NoFiles);
    }
    Ok(build_with_accessor(files_info, access_directory, pieces, opt_root, info, length))
}

/// Stores `value` under `key`, or takes the key out where there is no value.
fn set_or_remove(dict: &mut Bencode, key: &str, value: Option<Bencode>)
    requires
        old(dict)@ is Dict,
    ensures
        final(dict)@ == BencodeValue::Dict(changed(old(dict)@->Dict_0, key_of(key), value)),
        old(dict).wf() && (value matches Some(v) ==> v.wf()) ==> final(dict).wf(),
{
    match value {
        Some(v) => {
            dict.insert(key_bytes(key), v);
        },
        None => {
            dict.remove(key.as_bytes());
        },
    }
}

/// The entries after a key was set to a value, or unset.
pub open spec fn changed(d: Entries, key: Seq<u8>, value: Option<Bencode>) -> Entries {
    match value {
        Some(v) => insert_entry(d, key, v@),
        None => remove_entry(d, key),
    }
}

/// The entries after a key was set to a value of the model, or unset.
pub open spec fn changed_to(d: Entries, key: Seq<u8>, value: Option<BencodeValue>) -> Entries {
    match value {
        Some(v) => insert_entry(d, key, v),
        None => remove_entry(d, key),
    }
}

/// Builder for generating an info dictionary from some files.
pub struct InfoBuilder {
    info: Bencode,
    // Stored outside of the dictionary as some of the variants need the total
    // file sizes in order for the final piece length to be calculated.
    piece_length: PieceLength,
}

impl InfoBuilder {
    #[verifier::type_invariant]
    spec fn inv(self) -> bool {
        self.info@ is Dict && self.info.wf()
    }

    /// The optional keys collected so far.
    pub closed spec fn entries(self) -> Entries {
        self.info@->Dict_0
    }

    /// The setting for the piece length.
    pub closed spec fn piece_length(self) -> PieceLength {
        self.piece_length
    }

    /// A builder without optional keys and with the balanced piece length.
    pub fn new() -> (r: InfoBuilder)
        ensures
            r.entries() == Seq::<(Seq<u8>, BencodeValue)>::empty(),
            r.piece_length() == PieceLength::OptBalanced,
    {
        InfoBuilder { info: Bencode::new_dict(), piece_length: PieceLength::OptBalanced }
    }

    /// Set or unset the private flag for the torrent file: stored as 1 or 0.
    pub fn set_private_flag(self, opt_is_private: Option<bool>) -> (r: InfoBuilder)
        ensures
            r.piece_length() == self.piece_length(),
            r.entries() == changed_to(
                self.entries(),
                key_of(PRIVATE_KEY),
                match opt_is_private {
                    Some(flag) => Some(
                        BencodeValue::Int(
                            if flag {
                                1i64
                            } else {
                                0i64
                            },
                        ),
                    ),
                    None => None,
                },
            ),
    {
        proof {
            use_type_invariant(&self);
        }
        let mut info = self.info;
        let value = match opt_is_private {
            Some(flag) => Some(
                Bencode::new_int(
                    if flag {
                        1
                    } else {
                        0
                    },
                ),
            ),
            None => None,
        };
        set_or_remove(&mut info, PRIVATE_KEY, value);
        InfoBuilder { info, piece_length: self.piece_length }
    }

    /// Sets the piece length for the torrent file.
    pub fn set_piece_length(self, piece_length: PieceLength) -> (r: InfoBuilder)
        ensures
            r.piece_length() == piece_length,
            r.entries() == self.entries(),
    {
        proof {
            use_type_invariant(&self);
        }
        InfoBuilder { info: self.info, piece_length }
    }

    /// The plan of the pieces for `files_info` under this builder's setting.
    pub fn plan(&self, files_info: &Vec<(u64, Vec<String>)>) -> (r: Option<PiecePlan>)
        ensures
            r == planned(files_info@, self.piece_length()),
    {
        plan_pieces(files_info, &self.piece_length)
    }

    /// Build the info dictionary from what the accessor reported and the
    /// hashes of the pieces.
    pub fn build(
        self,
        files_info: &Vec<(u64, Vec<String>)>,
        access_directory: Option<&str>,
        pieces: &Vec<ShaHash>,
    ) -> (r: Result<Vec<u8>, BuildError>)
        ensures
            built_view(r) == build_outcome(
                None,
                self.entries(),
                files_info@,
                opt_text(access_directory),
                pieces@,
                self.piece_length(),
            ),
    {
        proof {
            use_type_invariant(&self);
        }
        build_checked(files_info, access_directory, pieces, None, self.info, self.piece_length)
    }
}

impl Default for InfoBuilder {
    /// A builder without optional keys and with the balanced piece length.
    fn default() -> (r: InfoBuilder)
        ensures
            r.entries() == Seq::<(Seq<u8>, BencodeValue)>::empty(),
            r.piece_length() == PieceLength::OptBalanced,
    {
        InfoBuilder::new()
    }
}

/// Builder for generating a torrent file from some files.
pub struct MetainfoBuilder {
    root: Bencode,
    info: InfoBuilder,
}

impl MetainfoBuilder {
    #[verifier::type_invariant]
    spec fn inv(self) -> bool {
        self.root@ is Dict && self.root.wf()
    }

    /// The optional keys of the root dictionary collected so far.
    pub closed spec fn root(self) -> Entries {
        self.root@->Dict_0
    }

    /// The optional keys of the info dictionary collected so far.
    pub closed spec fn info(self) -> Entries {
        self.info.entries()
    }

    /// The setting for the piece length.
    pub closed spec fn piece_length(self) -> PieceLength {
        self.info.piece_length()
    }

    /// Create a new `MetainfoBuilder` with some default values set.
    pub fn new() -> (r: MetainfoBuilder)
        ensures
            r.root() == Seq::<(Seq<u8>, BencodeValue)>::empty(),
            r.info() == Seq::<(Seq<u8>, BencodeValue)>::empty(),
            r.piece_length() == PieceLength::OptBalanced,
    {
        MetainfoBuilder { root: Bencode::new_dict(), info: InfoBuilder::new() }
    }

    /// Stores `value` under `key` of the root dictionary, or takes the key out.
    fn set_root(self, key: &str, value: Option<Bencode>) -> (r: MetainfoBuilder)
        requires
            value matches Some(v) ==> v.wf(),
        ensures
            r.root() == changed(self.root(), key_of(key), value),
            r.info() == self.info(),
            r.piece_length() == self.piece_length(),
    {
        proof {
            use_type_invariant(&self);
        }
        let mut root = self.root;
        set_or_remove(&mut root, key, value);
        MetainfoBuilder { root, info: self.info }
    }

    /// Set announce-list content: a list of tiers, each a list of urls.
    pub fn set_trackers(self, opt_trackers: Option<&Vec<Vec<String>>>) -> (r: MetainfoBuilder)
        ensures
            r.root() == changed_to(
                self.root(),
                key_of(ANNOUNCE_LIST_KEY),
                match opt_trackers {
                    Some(groups) => Some(BencodeValue::List(tiers_value(groups@))),
                    None => None,
                },
            ),
            r.info() == self.info(),
            r.piece_length() == self.piece_length(),
    {
        let value = match opt_trackers {
            Some(groups) => Some(tiers_list(groups)),
            None => None,
        };
        self.set_root(ANNOUNCE_LIST_KEY, value)
    }

    /// Set or unset the main tracker that this torrent file points to.
    pub fn set_main_tracker(self, opt_tracker_url: Option<&str>) -> (r: MetainfoBuilder)
        ensures
            r.root() == changed_to(
                self.root(),
                key_of(ANNOUNCE_URL_KEY),
                match opt_tracker_url {
                    Some(url) => Some(text_model(url@)),
                    None => None,
                },
            ),
            r.info() == self.info(),
            r.piece_length() == self.piece_length(),
    {
        let value = match opt_tracker_url {
            Some(url) => Some(text_value(url)),
            None => None,
        };
        self.set_root(ANNOUNCE_URL_KEY, value)
    }

    /// Set or unset the creation date for the torrent, in seconds since the
    /// epoch.
    pub fn set_creation_date(self, opt_secs_epoch: Option<i64>) -> (r: MetainfoBuilder)
        ensures
            r.root() == changed_to(
                self.root(),
                key_of(CREATION_DATE_KEY),
                match opt_secs_epoch {
                    Some(secs) => Some(BencodeValue::Int(secs)),
                    None => None,
                },
            ),
            r.info() == self.info(),
            r.piece_length() == self.piece_length(),
    {
        let value = match opt_secs_epoch {
            Some(secs) => Some(Bencode::new_int(secs)),
            None => None,
        };
        self.set_root(CREATION_DATE_KEY, value)
    }

    /// Set or unset a comment for the torrent file.
    pub fn set_comment(self, opt_comment: Option<&str>) -> (r: MetainfoBuilder)
        ensures
            r.root() == changed_to(
                self.root(),
                key_of(COMMENT_KEY),
                match opt_comment {
                    Some(comment) => Some(text_model(comment@)),
                    None => None,
                },
            ),
            r.info() == self.info(),
            r.piece_length() == self.piece_length(),
    {
        let value = match opt_comment {
            Some(comment) => Some(text_value(comment)),
            None => None,
        };
        self.set_root(COMMENT_KEY, value)
    }

    /// Set or unset the created by for the torrent file.
    pub fn set_created_by(self, opt_created_by: Option<&str>) -> (r: MetainfoBuilder)
        ensures
            r.root() == changed_to(
                self.root(),
                key_of(CREATED_BY_KEY),
                match opt_created_by {
                    Some(created_by) => Some(text_model(created_by@)),
                    None => None,
                },
            ),
            r.info() == self.info(),
            r.piece_length() == self.piece_length(),
    {
        let value = match opt_created_by {
            Some(created_by) => Some(text_value(created_by)),
            None => None,
        };
        self.set_root(CREATED_BY_KEY, value)
    }

    /// Set or unset the private flag for the torrent file.
    pub fn set_private_flag(self, opt_is_private: Option<bool>) -> (r: MetainfoBuilder)
        ensures
            r.root() == self.root(),
            r.piece_length() == self.piece_length(),
            r.info() == changed_to(
                self.info(),
                key_of(PRIVATE_KEY),
                match opt_is_private {
                    Some(flag) => Some(
                        BencodeValue::Int(
                            if flag {
                                1i64
                            } else {
                                0i64
                            },
                        ),
                    ),
                    None => None,
                },
            ),
    {
        proof {
            use_type_invariant(&self);
        }
        MetainfoBuilder { root: self.root, info: self.info.set_private_flag(opt_is_private) }
    }

    /// Sets the piece length for the torrent file.
    pub fn set_piece_length(self, piece_length: PieceLength) -> (r: MetainfoBuilder)
        ensures
            r.root() == self.root(),
            r.info() == self.info(),
            r.piece_length() == piece_length,
    {
        proof {
            use_type_invariant(&self);
        }
        MetainfoBuilder { root: self.root, info: self.info.set_piece_length(piece_length) }
    }

    /// Get decoded value of announce-list key.
    pub fn get_trackers(&self) -> (r: Option<Vec<Vec<String>>>)
        ensures
            r is Some <==> announce_list_under(self.root()) is Some,
            r matches Some(tiers) ==> announce_list_under(self.root()) == Some(tiers_model(tiers@)),
    {
        proof {
            use_type_invariant(self);
        }
        match parse_announce_list(&self.root) {
            Some(list) => Some(convert_announce_list(list)),
            None => None,
        }
    }

    /// Get decoded value of announce-url key.
    pub fn get_main_tracker(&self) -> (r: Option<String>)
        ensures
            r is Some <==> text_under(self.root(), key_of(ANNOUNCE_URL_KEY)) is Some,
            r matches Some(s) ==> text_under(self.root(), key_of(ANNOUNCE_URL_KEY)) == Some(s@),
    {
        proof {
            use_type_invariant(self);
        }
        match parse_announce_url(&self.root) {
            Some(s) => Some(String::from_str(s)),
            None => None,
        }
    }

    /// Get decoded value of creation-date key.
    pub fn get_creation_date(&self) -> (r: Option<i64>)
        ensures
            r == int_under(self.root(), key_of(CREATION_DATE_KEY)),
    {
        proof {
            use_type_invariant(self);
        }
        parse_creation_date(&self.root)
    }

    /// Get decoded value of comment key.
    pub fn get_comment(&self) -> (r: Option<String>)
        ensures
            r is Some <==> text_under(self.root(), key_of(COMMENT_KEY)) is Some,
            r matches Some(s) ==> text_under(self.root(), key_of(COMMENT_KEY)) == Some(s@),
    {
        proof {
            use_type_invariant(self);
        }
        match parse_comment(&self.root) {
            Some(s) => Some(String::from_str(s)),
            None => None,
        }
    }

    /// Get decoded value of created-by key.
    pub fn get_created_by(&self) -> (r: Option<String>)
        ensures
            r is Some <==> text_under(self.root(), key_of(CREATED_BY_KEY)) is Some,
            r matches Some(s) ==> text_under(self.root(), key_of(CREATED_BY_KEY)) == Some(s@),
    {
        proof {
            use_type_invariant(self);
        }
        match parse_created_by(&self.root) {
            Some(s) => Some(String::from_str(s)),
            None => None,
        }
    }

    /// The plan of the pieces for `files_info` under this builder's setting.
    pub fn plan(&self, files_info: &Vec<(u64, Vec<String>)>) -> (r: Option<PiecePlan>)
        ensures
            r == planned(files_info@, self.piece_length()),
    {
        self.info.plan(files_info)
    }

    /// Build the metainfo file from what the accessor reported and the hashes
    /// of the pieces.
    pub fn build(
        self,
        files_info: &Vec<(u64, Vec<String>)>,
        access_directory: Option<&str>,
        pieces: &Vec<ShaHash>,
    ) -> (r: Result<Vec<u8>, BuildError>)
        ensures
            built_view(r) == build_outcome(
                Some(self.root()),
                self.info(),
                files_info@,
                opt_text(access_directory),
                pieces@,
                self.piece_length(),
            ),
    {
        proof {
            use_type_invariant(&self);
            use_type_invariant(&self.info);
        }
        build_checked(
            files_info,
            access_directory,
            pieces,
            Some(self.root),
            self.info.info,
            self.info.piece_length,
        )
    }
}

impl Default for MetainfoBuilder {
    /// A builder without optional keys and with the balanced piece length.
    fn default() -> (r: MetainfoBuilder)
        ensures
            r.root() == Seq::<(Seq<u8>, BencodeValue)>::empty(),
            r.info() == Seq::<(Seq<u8>, BencodeValue)>::empty(),
            r.piece_length() == PieceLength::OptBalanced,
    {
        MetainfoBuilder::new()
    }
}

} // verus!
