//! Building server messages and turning them into frames.
//!
//! `ServerMsgFactory` assembles the envelopes. `SocketSendAdaptor` chains
//! building, encoding and sealing into one ready-to-send frame, for every
//! kind of response: nothing leaves unsealed. The encoder
//! and the cipher are handed in by the caller as functions; the contracts
//! say which message each of them is given and what becomes of what it
//! returns, and nothing about the bytes themselves.

use crate::clock::utc_now;
use crate::domain::chat_log::{message_log_views, MessageLog, MessageLogView};
use crate::domain::notification_log::{
    notification_log_views,
    NotificationLog,
    NotificationLogView,
};
use crate::domain::room::Room;
use crate::domain::user::{User, UserView};
use crate::protocol::{
    chat_views,
    notification_views,
    text_views,
    BinaryFrame,
    ChatMsg,
    ChatMsgView,
    Notification,
    NotificationView,
    ServerMsg,
    ServerMsgBody,
    ServerMsgBodyView,
    ServerMsgView,
    Status,
    Timestamp,
};
use vstd::prelude::*;

verus! {

/// The name under which the server's own notices are sent.
pub open spec fn server_sender() -> Seq<char> {
    "SERVER"@
}

/// The chat line shown for a stored chat line.
pub open spec fn chat_of(log: MessageLogView) -> ChatMsgView {
    ChatMsgView { sender: log.username, timestamp: log.timestamp, content: log.contents }
}

/// The notice shown for a stored notice.
pub open spec fn notice_of(log: NotificationLogView) -> NotificationView {
    NotificationView { sender: server_sender(), timestamp: log.timestamp, content: log.contents }
}

/// The chat lines shown for a stored history, in the history's order.
pub open spec fn chats_of(logs: Seq<MessageLogView>) -> Seq<ChatMsgView> {
    Seq::new(logs.len(), |i: int| chat_of(logs[i]))
}

/// The notices shown for stored notices, in their stored order.
pub open spec fn notices_of(logs: Seq<NotificationLogView>) -> Seq<NotificationView> {
    Seq::new(logs.len(), |i: int| notice_of(logs[i]))
}

/// The answer to a successful login, stamped `now`.
pub open spec fn login_success_msg(
    token: Seq<char>,
    public_key: Seq<u8>,
    now: Timestamp,
) -> ServerMsgView {
    ServerMsgView {
        status: Status::Yes,
        timestamp: now,
        body: ServerMsgBodyView::LoginSuccess { token, public_key },
    }
}

/// The delivery of the stored chat line `msg`, sent under the name of
/// `user` and stamped with the line's own time.
pub open spec fn msg_log_msg(msg: MessageLogView, user: UserView) -> ServerMsgView {
    ServerMsgView {
        status: Status::Yes,
        timestamp: msg.timestamp,
        body: ServerMsgBodyView::ChatRecv {
            direct: false,
            chat_msg: ChatMsgView {
                sender: user.name,
                timestamp: msg.timestamp,
                content: msg.contents,
            },
        },
    }
}

/// The bare acknowledgement that carries the time `time`.
pub open spec fn time_msg(time: Timestamp) -> ServerMsgView {
    ServerMsgView { status: Status::Yes, timestamp: time, body: ServerMsgBodyView::Empty }
}

/// The snapshot of a room named `room_name`: the envelope is stamped `now`,
/// the query is stamped `query_ts`, and history, notices and occupants keep
/// the order they were supplied in.
pub open spec fn room_data_msg(
    chat_logs: Seq<MessageLogView>,
    notifications: Seq<NotificationLogView>,
    occupants: Seq<Seq<char>>,
    room_name: Seq<char>,
    now: Timestamp,
    query_ts: Timestamp,
) -> ServerMsgView {
    ServerMsgView {
        status: Status::Yes,
        timestamp: now,
        body: ServerMsgBodyView::RoomData {
            query_ts,
            room_name,
            logs: chats_of(chat_logs),
            notifications: notices_of(notifications),
            occupants,
        },
    }
}

/// Assembles server messages from typed inputs.
pub struct ServerMsgFactory;

impl ServerMsgFactory {
    /// The answer to a successful login, stamped with the given time.
    pub fn login_success_at(token: String, public_key: [u8; 32], now: Timestamp) -> (msg:
        ServerMsg)
        ensures
            msg@ == login_success_msg(token@, public_key@, now),
    {
        ServerMsg {
            status: Status::Yes,
            timestamp: now,
            body: ServerMsgBody::LoginSuccess { token, public_key },
        }
    }

    /// The answer to a successful login, stamped with the current time.
    pub fn build_login_success_server_msg(token: String, public_key: [u8; 32]) -> (msg:
        ServerMsg)
        ensures
            msg@ == login_success_msg(token@, public_key@, msg.timestamp),
    {
        Self::login_success_at(token, public_key, utc_now())
    }

    /// The chat lines shown for `chat_logs`, one per stored line and in the
    /// same order.
    pub fn chat_msgs(chat_logs: &Vec<MessageLog>) -> (out: Vec<ChatMsg>)
        ensures
            chat_views(out@) == chats_of(message_log_views(chat_logs@)),
    {
        let mut out: Vec<ChatMsg> = Vec::new();
        let mut i: usize = 0;
        while i < chat_logs.len()
            invariant
                i <= chat_logs.len(),
                out.len() == i,
                forall|j: int| 0 <= j < i ==> out[j]@ == chat_of(#[trigger] chat_logs[j]@),
            decreases chat_logs.len() - i,
        {
            let log = &chat_logs[i];
            out.push(
                ChatMsg {
                    sender: log.username.clone(),
                    timestamp: log.timestamp,
                    content: log.contents.clone(),
                },
            );
            i += 1;
        }
        assert(chat_views(out@) =~= chats_of(message_log_views(chat_logs@)));
        out
    }

    /// The notices shown for `notifications`, one per stored notice and in
    /// the same order, each sent under the server's name.
    pub fn notices(notifications: &Vec<NotificationLog>) -> (out: Vec<Notification>)
        ensures
            notification_views(out@) == notices_of(notification_log_views(notifications@)),
    {
        let mut out: Vec<Notification> = Vec::new();
        let mut i: usize = 0;
        while i < notifications.len()
            invariant
                i <= notifications.len(),
                out.len() == i,
                forall|j: int| 0 <= j < i ==> out[j]@ == notice_of(#[trigger] notifications[j]@),
            decreases notifications.len() - i,
        {
            let log = &notifications[i];
            out.push(
                Notification {
                    sender: "SERVER".to_owned(),
                    timestamp: log.timestamp,
                    content: log.contents.clone(),
                },
            );
            i += 1;
        }
        assert(notification_views(out@) =~= notices_of(notification_log_views(notifications@)));
        out
    }

    /// The snapshot of `room`, with the envelope stamped `now` and the
    /// query stamped `query_ts`.
    pub fn room_data_at(
        chat_logs: Vec<MessageLog>,
        notifications: Vec<NotificationLog>,
        occupants: Vec<String>,
        room: &Room,
        now: Timestamp,
        query_ts: Timestamp,
    ) -> (msg: ServerMsg)
        ensures
            msg@ == room_data_msg(
                message_log_views(chat_logs@),
                notification_log_views(notifications@),
                text_views(occupants@),
                room@.name,
                now,
                query_ts,
            ),
    {
        ServerMsg {
            status: Status::Yes,
            timestamp: now,
            body: ServerMsgBody::RoomData {
                query_ts,
                room_name: room.name().clone(),
                logs: Self::chat_msgs(&chat_logs),
                notifications: Self::notices(&notifications),
                occupants,
            },
        }
    }

    /// The snapshot of `room` as of now. The envelope and the query are
    /// stamped by two readings of the clock, the envelope's first.
    pub fn build_room_data(
        chat_logs: Vec<MessageLog>,
        notifications: Vec<NotificationLog>,
        occupants: Vec<String>,
        room: &Room,
    ) -> (msg: ServerMsg)
        ensures
            msg.body is RoomData,
            msg@ == room_data_msg(
                message_log_views(chat_logs@),
                notification_log_views(notifications@),
                text_views(occupants@),
                room@.name,
                msg.timestamp,
                msg.body->query_ts,
            ),
    {
        let now = utc_now();
        let query_ts = utc_now();
        Self::room_data_at(chat_logs, notifications, occupants, room, now, query_ts)
    }

    /// The delivery of the stored chat line `msg` under the name of `user`.
    pub fn build_msg_log_server_msg(msg: MessageLog, user: &User) -> (out: ServerMsg)
        ensures
            out@ == msg_log_msg(msg@, user@),
    {
        ServerMsg {
            status: Status::Yes,
            timestamp: msg.timestamp,
            body: ServerMsgBody::ChatRecv {
                direct: false,
                chat_msg: ChatMsg {
                    sender: user.name.clone(),
                    timestamp: msg.timestamp,
                    content: msg.contents,
                },
            },
        }
    }

    /// The bare acknowledgement that carries the time `time`.
    pub fn build_time_server_msg(time: Timestamp) -> (msg: ServerMsg)
        ensures
            msg@ == time_msg(time),
    {
        ServerMsg { status: Status::Yes, timestamp: time, body: ServerMsgBody::Empty }
    }
}

/// Why a message could not be turned into a frame.
#[derive(Clone, Debug, PartialEq, Eq)]
pub enum SendError {
    /// The encoder refused the message. `detail` is the encoder's own
    /// account; `message` is the message it was given.
    Serialize { detail: String, message: ServerMsg },
    /// The cipher refused the encoded bytes. `detail` is its own account.
    Encrypt { detail: String },
}

/// What framing with a cipher may return for a message that satisfies
/// `wanted`: the cipher's output for the encoder's bytes, or the first
/// refusal met on the way. A refusal of the encoder comes with the message
/// it refused, and then the cipher has not been asked.
pub open spec fn framed_sealed<
    E: FnOnce(&ServerMsg) -> Result<Vec<u8>, String>,
    C: FnOnce(&[u8; 32], Vec<u8>) -> Result<Vec<u8>, String>,
>(
    r: Result<BinaryFrame, SendError>,
    wanted: spec_fn(ServerMsg) -> bool,
    key: &[u8; 32],
    encode: E,
    seal: C,
) -> bool {
    match r {
        Ok(frame) => exists|m: ServerMsg, bytes: Vec<u8>|
            wanted(m) && #[trigger] encode.ensures((&m,), Ok(bytes)) && #[trigger] seal.ensures(
                (key, bytes),
                Ok(frame.payload),
            ),
        Err(SendError::Serialize { detail, message }) => wanted(message) && encode.ensures(
            (&message,),
            Err(detail),
        ),
        Err(SendError::Encrypt { detail }) => exists|m: ServerMsg, bytes: Vec<u8>|
            wanted(m) && #[trigger] encode.ensures((&m,), Ok(bytes)) && #[trigger] seal.ensures(
                (key, bytes),
                Err(detail),
            ),
    }
}

/// Turns server messages into frames for the socket.
pub struct SocketSendAdaptor;

impl SocketSendAdaptor {
    /// Encodes `s` with `encode`. A refusal is reported together with `s`
    /// itself.
    pub fn serialized_server_msg<E>(s: ServerMsg, encode: E) -> (r: Result<Vec<u8>, SendError>)
        where E: FnOnce(&ServerMsg) -> Result<Vec<u8>, String>
        requires
            encode.requires((&s,)),
        ensures
            match r {
                Ok(bytes) => encode.ensures((&s,), Ok(bytes)),
                Err(SendError::Serialize { detail, message }) => message == s && encode.ensures(
                    (&s,),
                    Err(detail),
                ),
                Err(SendError::Encrypt { .. }) => false,
            },
    {
        match encode(&s) {
            Ok(bytes) => Ok(bytes),
            Err(detail) => Err(SendError::Serialize { detail, message: s }),
        }
    }

    /// Seals `serialized` under `key` with `seal` and wraps the result in a
    /// binary frame.
    pub fn encrypt_message<C>(key: &[u8; 32], serialized: Vec<u8>, seal: C) -> (r: Result<
        BinaryFrame,
        SendError,
    >)
        where C: FnOnce(&[u8; 32], Vec<u8>) -> Result<Vec<u8>, String>
        requires
            seal.requires((key, serialized)),
        ensures
            match r {
                Ok(frame) => seal.ensures((key, serialized), Ok(frame.payload)),
                Err(SendError::Encrypt { detail }) => seal.ensures((key, serialized), Err(detail)),
                Err(SendError::Serialize { .. }) => false,
            },
    {
        match seal(key, serialized) {
            Ok(payload) => Ok(BinaryFrame { payload }),
            Err(detail) => Err(SendError::Encrypt { detail }),
        }
    }

    /// Encodes `msg` and seals the bytes: the second half of every sealed
    /// response.
    fn seal_server_msg<E, C>(msg: ServerMsg, key: &[u8; 32], encode: E, seal: C) -> (r: Result<
        BinaryFrame,
        SendError,
    >)
        where
            E: FnOnce(&ServerMsg) -> Result<Vec<u8>, String>,
            C: FnOnce(&[u8; 32], Vec<u8>) -> Result<Vec<u8>, String>,
        requires
            encode.requires((&msg,)),
            forall|bytes: Vec<u8>| seal.requires((key, bytes)),
        ensures
            framed_sealed(r, |m: ServerMsg| m == msg, key, encode, seal),
    {
        let serialized = match Self::serialized_server_msg(msg, encode) {
            Ok(bytes) => bytes,
            Err(e) => {
                return Err(e);
            },
        };
        Self::encrypt_message(key, serialized, seal)
    }

    /// The sealed frame that answers a successful login: the message is
    /// built, stamped with the current time, encoded, and sealed under
    /// `key`, the session key of the user who logged in.
    pub fn on_login_success<E, C>(
        token: String,
        public_key: [u8; 32],
        key: &[u8; 32],
        encode: E,
        seal: C,
    ) -> (r: Result<BinaryFrame, SendError>)
        where
            E: FnOnce(&ServerMsg) -> Result<Vec<u8>, String>,
            C: FnOnce(&[u8; 32], Vec<u8>) -> Result<Vec<u8>, String>,
        requires
            forall|m: ServerMsg| encode.requires((&m,)),
            forall|bytes: Vec<u8>| seal.requires((key, bytes)),
        ensures
            framed_sealed(
                r,
                |m: ServerMsg| m@ == login_success_msg(token@, public_key@, m.timestamp),
                key,
                encode,
                seal,
            ),
    {
        let server_msg = ServerMsgFactory::build_login_success_server_msg(token, public_key);
        Self::seal_server_msg(server_msg, key, encode, seal)
    }

    /// The sealed frame that delivers the stored chat line `msg` under the
    /// name of `user`.
    pub fn prepare_send_msg_log<E, C>(
        msg: MessageLog,
        user: &User,
        key: &[u8; 32],
        encode: E,
        seal: C,
    ) -> (r: Result<BinaryFrame, SendError>)
        where
            E: FnOnce(&ServerMsg) -> Result<Vec<u8>, String>,
            C: FnOnce(&[u8; 32], Vec<u8>) -> Result<Vec<u8>, String>,
        requires
            forall|m: ServerMsg| encode.requires((&m,)),
            forall|bytes: Vec<u8>| seal.requires((key, bytes)),
        ensures
            framed_sealed(r, |m: ServerMsg| m@ == msg_log_msg(msg@, user@), key, encode, seal),
    {
        let server_msg = ServerMsgFactory::build_msg_log_server_msg(msg, user);
        Self::seal_server_msg(server_msg, key, encode, seal)
    }

    /// The sealed frame that acknowledges a time query with the time `t`.
    pub fn prepare_send_time<E, C>(key: &[u8; 32], t: Timestamp, encode: E, seal: C) -> (r:
        Result<BinaryFrame, SendError>)
        where
            E: FnOnce(&ServerMsg) -> Result<Vec<u8>, String>,
            C: FnOnce(&[u8; 32], Vec<u8>) -> Result<Vec<u8>, String>,
        requires
            forall|m: ServerMsg| encode.requires((&m,)),
            forall|bytes: Vec<u8>| seal.requires((key, bytes)),
        ensures
            framed_sealed(r, |m: ServerMsg| m@ == time_msg(t), key, encode, seal),
    {
        let server_msg = ServerMsgFactory::build_time_server_msg(t);
        Self::seal_server_msg(server_msg, key, encode, seal)
    }

    /// The sealed frame that carries the snapshot of `room` as of now.
    pub fn room_data_response<E, C>(
        key: &[u8; 32],
        chat_logs: Vec<MessageLog>,
        notifications: Vec<NotificationLog>,
        occupants: Vec<String>,
        room: &Room,
        encode: E,
        seal: C,
    ) -> (r: Result<BinaryFrame, SendError>)
        where
            E: FnOnce(&ServerMsg) -> Result<Vec<u8>, String>,
            C: FnOnce(&[u8; 32], Vec<u8>) -> Result<Vec<u8>, String>,
        requires
            forall|m: ServerMsg| encode.requires((&m,)),
            forall|bytes: Vec<u8>| seal.requires((key, bytes)),
        ensures
            framed_sealed(
                r,
                |m: ServerMsg|
                    m.body is RoomData && m@ == room_data_msg(
                        message_log_views(chat_logs@),
                        notification_log_views(notifications@),
                        text_views(occupants@),
                        room@.name,
                        m.timestamp,
                        m.body->query_ts,
                    ),
                key,
                encode,
                seal,
            ),
    {
        let server_msg = ServerMsgFactory::build_room_data(
            chat_logs,
            notifications,
            occupants,
            room,
        );
        Self::seal_server_msg(server_msg, key, encode, seal)
    }
}

} // verus!
