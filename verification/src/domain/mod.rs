//! The relay's own records: users, rooms and the history of a room.

pub mod chat_log;
pub mod notification_log;
pub mod room;
pub mod user;
