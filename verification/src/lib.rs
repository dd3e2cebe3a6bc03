//! Negotiation and multiplexing support for extensible RLPx-based
//! application-level sub-protocols ("capabilities").
//!
//! A transport that has already established an encrypted, multiplexed peer
//! connection uses this crate to let independently written sub-protocols
//! announce themselves, negotiate against what the remote peer advertised,
//! and obtain a message stream bound to the capability's assigned
//! message-ID range.

pub mod capability;
pub mod handler;
pub mod policy;
pub mod proxy;
pub mod registry;
