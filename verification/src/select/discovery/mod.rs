//! Discovery of peers for the torrents that were added.

pub mod error;
