//! Messages of the distributed hash table.

pub mod error;
pub mod message;
