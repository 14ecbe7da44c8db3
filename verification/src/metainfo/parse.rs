//! The keys of a metainfo file, and how the values under them are read.

use crate::bencode::text::{key_of, text_of, value_text};
use crate::bencode::value::{lookup_value, Bencode, BencodeValue, Entries};
use vstd::prelude::*;
use vstd::string::*;

verus! {

/// Key for the announce list in the root dictionary.
pub const ANNOUNCE_LIST_KEY: &'static str = "announce-list";

/// Key for the main tracker's url in the root dictionary.
pub const ANNOUNCE_URL_KEY: &'static str = "announce";

/// Key for the creation date in the root dictionary.
pub const CREATION_DATE_KEY: &'static str = "creation date";

/// Key for the comment in the root dictionary.
pub const COMMENT_KEY: &'static str = "comment";

/// Key for the created-by note in the root dictionary.
pub const CREATED_BY_KEY: &'static str = "created by";

/// Key for the info dictionary in the root dictionary.
pub const INFO_KEY: &'static str = "info";

/// Key for the piece length in the info dictionary.
pub const PIECE_LENGTH_KEY: &'static str = "piece length";

/// Key for the piece hashes in the info dictionary.
pub const PIECES_KEY: &'static str = "pieces";

/// Key for the private flag in the info dictionary.
pub const PRIVATE_KEY: &'static str = "private";

/// Key for the name in the info dictionary.
pub const NAME_KEY: &'static str = "name";

/// Key for the list of files in the info dictionary.
pub const FILES_KEY: &'static str = "files";

/// Key for the length of a file in the info or a file dictionary.
pub const LENGTH_KEY: &'static str = "length";

/// Key for the path of a file in a file dictionary.
pub const PATH_KEY: &'static str = "path";

/// The text under `key`, where there is one.
pub open spec fn text_under(d: Entries, key: Seq<u8>) -> Option<Seq<char>> {
    match lookup_value(d, key) {
        Some(v) => text_of(v),
        None => None,
    }
}

/// The integer under `key`, where there is one.
pub open spec fn int_under(d: Entries, key: Seq<u8>) -> Option<i64> {
    match lookup_value(d, key) {
        Some(BencodeValue::Int(i)) => Some(i),
        _ => None,
    }
}

/// The text stored under `key` of the dictionary `dict`.
pub fn parse_text<'a>(dict: &'a Bencode, key: &str) -> (r: Option<&'a str>)
    requires
        dict@ is Dict,
    ensures
        r is Some <==> text_under(dict@->Dict_0, key_of(key)) is Some,
        r matches Some(s) ==> text_under(dict@->Dict_0, key_of(key)) == Some(s@),
{
    match dict.lookup(key.as_bytes()) {
        Some(value) => value_text(value),
        None => None,
    }
}

/// The url of the main tracker, from the root dictionary.
pub fn parse_announce_url<'a>(root: &'a Bencode) -> (r: Option<&'a str>)
    requires
        root@ is Dict,
    ensures
        r is Some <==> text_under(root@->Dict_0, key_of(ANNOUNCE_URL_KEY)) is Some,
        r matches Some(s) ==> text_under(root@->Dict_0, key_of(ANNOUNCE_URL_KEY)) == Some(s@),
{
    parse_text(root, ANNOUNCE_URL_KEY)
}

/// The comment, from the root dictionary.
pub fn parse_comment<'a>(root: &'a Bencode) -> (r: Option<&'a str>)
    requires
        root@ is Dict,
    ensures
        r is Some <==> text_under(root@->Dict_0, key_of(COMMENT_KEY)) is Some,
        r matches Some(s) ==> text_under(root@->Dict_0, key_of(COMMENT_KEY)) == Some(s@),
{
    parse_text(root, COMMENT_KEY)
}

/// The created-by note, from the root dictionary.
pub fn parse_created_by<'a>(root: &'a Bencode) -> (r: Option<&'a str>)
    requires
        root@ is Dict,
    ensures
        r is Some <==> text_under(root@->Dict_0, key_of(CREATED_BY_KEY)) is Some,
        r matches Some(s) ==> text_under(root@->Dict_0, key_of(CREATED_BY_KEY)) == Some(s@),
{
    parse_text(root, CREATED_BY_KEY)
}

/// The creation date in seconds since the epoch, from the root dictionary.
pub fn parse_creation_date(root: &Bencode) -> (r: Option<i64>)
    requires
        root@ is Dict,
    ensures
        r == int_under(root@->Dict_0, key_of(CREATION_DATE_KEY)),
{
    match root.lookup(CREATION_DATE_KEY.as_bytes()) {
        Some(value) => value.as_int(),
        None => None,
    }
}

/// The urls of a tier: the texts among its items, in order.
pub open spec fn tier_urls(items: Seq<BencodeValue>) -> Seq<Seq<char>>
    decreases items.len(),
{
    if items.len() == 0 {
        Seq::empty()
    } else {
        let before = tier_urls(items.drop_last());
        match text_of(items.last()) {
            Some(url) => before.push(url),
            None => before,
        }
    }
}

/// The tiers of an announce list: the url lists of the lists among its items,
/// in order.
pub open spec fn announce_tiers(items: Seq<BencodeValue>) -> Seq<Seq<Seq<char>>>
    decreases items.len(),
{
    if items.len() == 0 {
        Seq::empty()
    } else {
        let before = announce_tiers(items.drop_last());
        match items.last() {
            BencodeValue::List(tier) => before.push(tier_urls(tier)),
            _ => before,
        }
    }
}

/// The announce list under its key, where a list is stored there.
pub open spec fn announce_list_under(d: Entries) -> Option<Seq<Seq<Seq<char>>>> {
    match lookup_value(d, key_of(ANNOUNCE_LIST_KEY)) {
        Some(BencodeValue::List(items)) => Some(announce_tiers(items)),
        _ => None,
    }
}

/// The texts of `urls`, one for one.
pub open spec fn urls_model(urls: Seq<String>) -> Seq<Seq<char>> {
    Seq::new(urls.len(), |i: int| urls[i]@)
}

/// The texts of `tiers`, one for one.
pub open spec fn tiers_model(tiers: Seq<Vec<String>>) -> Seq<Seq<Seq<char>>> {
    Seq::new(tiers.len(), |i: int| urls_model(tiers[i]@))
}

/// The announce list, from the root dictionary.
pub fn parse_announce_list(root: &Bencode) -> (r: Option<&Vec<Bencode>>)
    requires
        root@ is Dict,
    ensures
        r is Some <==> announce_list_under(root@->Dict_0) is Some,
        r matches Some(l) ==> lookup_value(root@->Dict_0, key_of(ANNOUNCE_LIST_KEY)) == Some(
            BencodeValue::List(crate::bencode::value::items_view(l@)),
        ),
{
    match root.lookup(ANNOUNCE_LIST_KEY.as_bytes()) {
        Some(value) => value.as_list(),
        None => None,
    }
}

/// The urls of one tier as owned texts.
pub fn convert_tier(tier: &Vec<Bencode>) -> (r: Vec<String>)
    ensures
        urls_model(r@) == tier_urls(crate::bencode::value::items_view(tier@)),
{
    let ghost items = crate::bencode::value::items_view(tier@);
    let mut urls: Vec<String> = Vec::new();
    let mut i: usize = 0;
    assert(items.subrange(0, 0) =~= Seq::<BencodeValue>::empty());
    assert(urls_model(urls@) =~= Seq::<Seq<char>>::empty());
    while i < tier.len()
        invariant
            i <= tier.len(),
            items == crate::bencode::value::items_view(tier@),
            urls_model(urls@) == tier_urls(items.subrange(0, i as int)),
        decreases tier.len() - i,
    {
        let ghost before = urls@;
        proof {
            assert(items.subrange(0, i + 1).drop_last() =~= items.subrange(0, i as int));
            assert(items.subrange(0, i + 1).last() == items[i as int]);
        }
        match value_text(&tier[i]) {
            Some(url) => {
                urls.push(String::from_str(url));
                assert(urls_model(urls@) =~= urls_model(before).push(url@));
            },
            None => {},
        }
        i += 1;
    }
    assert(items.subrange(0, tier.len() as int) =~= items);
    urls
}

/// The tiers of an announce list as owned texts.
pub fn convert_announce_list(list: &Vec<Bencode>) -> (r: Vec<Vec<String>>)
    ensures
        tiers_model(r@) == announce_tiers(crate::bencode::value::items_view(list@)),
{
    let ghost items = crate::bencode::value::items_view(list@);
    let mut tiers: Vec<Vec<String>> = Vec::new();
    let mut i: usize = 0;
    assert(items.subrange(0, 0) =~= Seq::<BencodeValue>::empty());
    assert(tiers_model(tiers@) =~= Seq::<Seq<Seq<char>>>::empty());
    while i < list.len()
        invariant
            i <= list.len(),
            items == crate::bencode::value::items_view(list@),
            tiers_model(tiers@) == announce_tiers(items.subrange(0, i as int)),
        decreases list.len() - i,
    {
        let ghost before = tiers@;
        proof {
            assert(items.subrange(0, i + 1).drop_last() =~= items.subrange(0, i as int));
            assert(items.subrange(0, i + 1).last() == items[i as int]);
        }
        match list[i].as_list() {
            Some(tier) => {
                let urls = convert_tier(tier);
                tiers.push(urls);
                assert(tiers_model(tiers@) =~= tiers_model(before).push(urls_model(urls@)));
            },
            None => {},
        }
        i += 1;
    }
    assert(items.subrange(0, list.len() as int) =~= items);
    tiers
}

} // verus!
