//! Stored server notices.

use crate::protocol::Timestamp;
use vstd::prelude::*;

verus! {

/// One server notice as the history store keeps it.
#[derive(Clone, Debug, PartialEq, Eq)]
pub struct NotificationLog {
    pub timestamp: Timestamp,
    pub contents: String,
}

pub struct NotificationLogView {
    pub timestamp: Timestamp,
    pub contents: Seq<char>,
}

impl View for NotificationLog {
    type V = NotificationLogView;

    open spec fn view(&self) -> NotificationLogView {
        NotificationLogView { timestamp: self.timestamp, contents: self.contents@ }
    }
}

/// The views of a list of stored notices, in the list's order.
pub open spec fn notification_log_views(s: Seq<NotificationLog>) -> Seq<NotificationLogView> {
    Seq::new(s.len(), |i: int| s[i]@)
}

} // verus!
