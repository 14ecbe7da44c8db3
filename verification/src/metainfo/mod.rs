//! Construction of metainfo (`.torrent`) files.

pub mod builder;
pub mod parse;
pub mod piece_length;
pub mod pieces;
