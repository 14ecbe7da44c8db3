//! Blocks held in memory.

pub mod block;
