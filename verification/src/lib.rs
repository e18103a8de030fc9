//! Message routing and protocol encoding for a room-based chat relay.
//!
//! The crate holds the room registry, the per-frame routing decision of a
//! connection, the command pipeline that answers a sender on its own reply
//! channel, and the construction of outbound server messages. Everything
//! here is synchronous: the tasks that await frames and commands, and the
//! locks around the registry, belong to the program that embeds the crate.

pub mod channel;
pub mod clock;
pub mod domain;
pub mod protocol;
pub mod services;
pub mod handlers;
