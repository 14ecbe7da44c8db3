//! Primitives shared by every protocol: byte order, identifiers, endpoints.

pub mod bt;
pub mod convert;
pub mod error;
pub mod net;
pub mod test;
