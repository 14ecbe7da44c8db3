//! Bencode: integers, byte strings, lists and dictionaries with sorted keys.

pub mod convert;
pub mod decode;
pub mod encode;
pub mod laws;
pub mod order;
pub mod text;
pub mod value;
