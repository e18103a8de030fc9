//! Stored chat lines.

use crate::protocol::Timestamp;
use vstd::prelude::*;

verus! {

/// One chat line as the history store keeps it.
#[derive(Clone, Debug, PartialEq, Eq)]
pub struct MessageLog {
    pub username: String,
    pub timestamp: Timestamp,
    pub contents: String,
}

pub struct MessageLogView {
    pub username: Seq<char>,
    pub timestamp: Timestamp,
    pub contents: Seq<char>,
}

impl View for MessageLog {
    type V = MessageLogView;

    open spec fn view(&self) -> MessageLogView {
        MessageLogView {
            username: self.username@,
            timestamp: self.timestamp,
            contents: self.contents@,
        }
    }
}

/// The views of a list of stored chat lines, in the list's order.
pub open spec fn message_log_views(s: Seq<MessageLog>) -> Seq<MessageLogView> {
    Seq::new(s.len(), |i: int| s[i]@)
}

} // verus!
