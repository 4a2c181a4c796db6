//! A minimal client library for the Linux netlink socket-diagnostics
//! protocol: message-header framing, diagnostic dump requests, and the
//! state machine that drives a dump session to a terminal outcome.
//!
//! The raw socket transport (open, bind, send, receive) is an external
//! collaborator; this crate only frames the bytes it sends and decides,
//! message by message, whether a dump continues or terminates.

pub mod codec;
pub mod error;
pub mod family;
pub mod request;
pub mod session;
