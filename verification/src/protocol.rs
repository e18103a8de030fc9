//! The shapes of the requests and responses exchanged with clients.
//!
//! Every type that owns text or lists has a view in which strings are
//! `Seq<char>` and lists are `Seq`s of views; contracts are stated over
//! those views.

use vstd::prelude::*;

verus! {

/// Whether the server accepted what it answers.
#[derive(Clone, Copy, Debug, PartialEq, Eq, Structural)]
pub enum Status {
    Yes,
    No,
}

/// An instant in UTC: whole seconds since the Unix epoch and the
/// nanoseconds past that second.
#[derive(Clone, Copy, Debug, PartialEq, Eq, Structural)]
pub struct Timestamp {
    pub secs: i64,
    pub nanos: u32,
}

/// One chat line as it is shown to a client.
#[derive(Clone, Debug, PartialEq, Eq)]
pub struct ChatMsg {
    pub sender: String,
    pub timestamp: Timestamp,
    pub content: String,
}

pub struct ChatMsgView {
    pub sender: Seq<char>,
    pub timestamp: Timestamp,
    pub content: Seq<char>,
}

impl View for ChatMsg {
    type V = ChatMsgView;

    open spec fn view(&self) -> ChatMsgView {
        ChatMsgView { sender: self.sender@, timestamp: self.timestamp, content: self.content@ }
    }
}

/// One notice raised by the server itself.
#[derive(Clone, Debug, PartialEq, Eq)]
pub struct Notification {
    pub sender: String,
    pub timestamp: Timestamp,
    pub content: String,
}

pub struct NotificationView {
    pub sender: Seq<char>,
    pub timestamp: Timestamp,
    pub content: Seq<char>,
}

impl View for Notification {
    type V = NotificationView;

    open spec fn view(&self) -> NotificationView {
        NotificationView {
            sender: self.sender@,
            timestamp: self.timestamp,
            content: self.content@,
        }
    }
}

/// The views of a list of chat lines, in the list's order.
pub open spec fn chat_views(s: Seq<ChatMsg>) -> Seq<ChatMsgView> {
    Seq::new(s.len(), |i: int| s[i]@)
}

/// The views of a list of notices, in the list's order.
pub open spec fn notification_views(s: Seq<Notification>) -> Seq<NotificationView> {
    Seq::new(s.len(), |i: int| s[i]@)
}

/// The views of a list of strings, in the list's order.
pub open spec fn text_views(s: Seq<String>) -> Seq<Seq<char>> {
    Seq::new(s.len(), |i: int| s[i]@)
}

/// What a server message carries.
#[derive(Clone, Debug, PartialEq, Eq)]
pub enum ServerMsgBody {
    /// A bare acknowledgement.
    Empty,
    /// The session token and the server's public key, after a login.
    LoginSuccess { token: String, public_key: [u8; 32] },
    /// One chat line delivered to a room or to one user.
    ChatRecv { direct: bool, chat_msg: ChatMsg },
    /// A snapshot of a room: its history and who is in it.
    RoomData {
        query_ts: Timestamp,
        room_name: String,
        logs: Vec<ChatMsg>,
        notifications: Vec<Notification>,
        occupants: Vec<String>,
    },
}

pub enum ServerMsgBodyView {
    Empty,
    LoginSuccess { token: Seq<char>, public_key: Seq<u8> },
    ChatRecv { direct: bool, chat_msg: ChatMsgView },
    RoomData {
        query_ts: Timestamp,
        room_name: Seq<char>,
        logs: Seq<ChatMsgView>,
        notifications: Seq<NotificationView>,
        occupants: Seq<Seq<char>>,
    },
}

impl View for ServerMsgBody {
    type V = ServerMsgBodyView;

    open spec fn view(&self) -> ServerMsgBodyView {
        match *self {
            ServerMsgBody::Empty => ServerMsgBodyView::Empty,
            ServerMsgBody::LoginSuccess { token, public_key } => ServerMsgBodyView::LoginSuccess {
                token: token@,
                public_key: public_key@,
            },
            ServerMsgBody::ChatRecv { direct, chat_msg } => ServerMsgBodyView::ChatRecv {
                direct,
                chat_msg: chat_msg@,
            },
            ServerMsgBody::RoomData {
                query_ts,
                room_name,
                logs,
                notifications,
                occupants,
            } => ServerMsgBodyView::RoomData {
                query_ts,
                room_name: room_name@,
                logs: chat_views(logs@),
                notifications: notification_views(notifications@),
                occupants: text_views(occupants@),
            },
        }
    }
}

/// The envelope of everything the server sends.
#[derive(Clone, Debug, PartialEq, Eq)]
pub struct ServerMsg {
    pub status: Status,
    pub timestamp: Timestamp,
    pub body: ServerMsgBody,
}

pub struct ServerMsgView {
    pub status: Status,
    pub timestamp: Timestamp,
    pub body: ServerMsgBodyView,
}

impl View for ServerMsg {
    type V = ServerMsgView;

    open spec fn view(&self) -> ServerMsgView {
        ServerMsgView { status: self.status, timestamp: self.timestamp, body: self.body@ }
    }
}

/// What a client request asks for.
#[derive(Clone, Debug, PartialEq, Eq)]
pub enum ClientMsgBody {
    /// A chat line for the sender's room.
    SendToRoom { contents: String },
    /// A query for the server's time.
    GetTime,
    /// A request kind that is named in the protocol but that nothing here
    /// acts on.
    Reserved,
}

pub enum ClientMsgBodyView {
    SendToRoom { contents: Seq<char> },
    GetTime,
    Reserved,
}

impl View for ClientMsgBody {
    type V = ClientMsgBodyView;

    open spec fn view(&self) -> ClientMsgBodyView {
        match *self {
            ClientMsgBody::SendToRoom { contents } => ClientMsgBodyView::SendToRoom {
                contents: contents@,
            },
            ClientMsgBody::GetTime => ClientMsgBodyView::GetTime,
            ClientMsgBody::Reserved => ClientMsgBodyView::Reserved,
        }
    }
}

/// The envelope of everything a client sends. A request without a token
/// is not authorised.
#[derive(Clone, Debug, PartialEq, Eq)]
pub struct ClientMsg {
    pub token: Option<String>,
    pub body: ClientMsgBody,
}

pub struct ClientMsgView {
    pub token: Option<Seq<char>>,
    pub body: ClientMsgBodyView,
}

impl View for ClientMsg {
    type V = ClientMsgView;

    open spec fn view(&self) -> ClientMsgView {
        ClientMsgView {
            token: match self.token {
                Some(t) => Some(t@),
                None => None,
            },
            body: self.body@,
        }
    }
}

/// A binary transport frame, ready to be written to a connection.
#[derive(Clone, Debug, PartialEq, Eq)]
pub struct BinaryFrame {
    pub payload: Vec<u8>,
}

impl View for BinaryFrame {
    type V = Seq<u8>;

    open spec fn view(&self) -> Seq<u8> {
        self.payload@
    }
}

impl Timestamp {
    /// Whether `self` is not later than `other`.
    pub open spec fn spec_not_after(self, other: Timestamp) -> bool {
        self.secs < other.secs || (self.secs == other.secs && self.nanos <= other.nanos)
    }

    /// Whether `self` is not later than `other`.
    pub fn not_after(&self, other: &Timestamp) -> (r: bool)
        ensures
            r == self.spec_not_after(*other),
    {
        self.secs < other.secs || (self.secs == other.secs && self.nanos <= other.nanos)
    }
}

} // verus!
