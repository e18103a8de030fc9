//! Construction and framing of what the server sends.

pub mod message_builder;
