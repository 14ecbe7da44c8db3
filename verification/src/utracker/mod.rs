//! The UDP tracker protocol: connect, announce and scrape requests.
//!
//! Every request starts with a connection id of eight bytes, an action of four
//! and a transaction id of four, all most significant byte first. What follows
//! depends on the action.

pub mod announce;
pub mod error;
pub mod request;
pub mod scrape;

use vstd::prelude::*;

verus! {

/// Action of a connect request.
pub const CONNECT_ACTION_ID: u32 = 0;

/// Action of an announce request whose address field is an IPv4 one.
pub const ANNOUNCE_IPV4_ACTION_ID: u32 = 1;

/// Action of a scrape request.
pub const SCRAPE_ACTION_ID: u32 = 2;

/// Action of an announce request whose address field is an IPv6 one.
pub const ANNOUNCE_IPV6_ACTION_ID: u32 = 4;

} // verus!
