//! What a connection does with what it receives.

pub mod commands;
pub mod recv_routing;
