//! Selection of peers and of pieces: what its modules share.

pub mod discovery;
