//! Client-side building blocks of a BitTorrent stack: wire codecs for peers,
//! the distributed hash table and UDP trackers, bencode values, metainfo
//! construction, disk blocks and the state of a single-socket UDP dispatcher.

pub mod bencode;
pub mod dht;
pub mod disk;
pub mod metainfo;
pub mod peer;
pub mod select;
pub mod umio;
pub mod util;
pub mod utracker;
