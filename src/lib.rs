//! Relays an RSS feed with the items whose titles match any of a set of
//! terms removed.

pub mod channel;
pub mod filter;
pub mod relay;
pub mod laws;
