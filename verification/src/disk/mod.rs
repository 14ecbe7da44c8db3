//! Blocks of piece data on their way between peers and the disk.

pub mod memory;
