use chat_relay::domain::chat_log::MessageLog;
use chat_relay::domain::notification_log::NotificationLog;
use chat_relay::domain::room::RoomRegistry;
use chat_relay::domain::user::User;
use chat_relay::protocol::{
    BinaryFrame, ChatMsg, Notification, ServerMsg, ServerMsgBody, Status, Timestamp,
};
use chat_relay::services::message_builder::{SendError, ServerMsgFactory, SocketSendAdaptor};
use std::cell::Cell;

fn ts(secs: i64, nanos: u32) -> Timestamp {
    Timestamp { secs, nanos }
}

fn now() -> Timestamp {
    let t = chrono::Utc::now();
    Timestamp { secs: t.timestamp(), nanos: t.timestamp_subsec_nanos() }
}

fn user(name: &str) -> User {
    User { id: 1, name: name.to_string(), room: 1, token: None, key: [0u8; 32] }
}

fn log(name: &str, at: Timestamp, text: &str) -> MessageLog {
    MessageLog { username: name.to_string(), timestamp: at, contents: text.to_string() }
}

fn registry_with_room(id: u64, name: &str) -> RoomRegistry {
    let mut reg = RoomRegistry::new();
    reg.add_room(id, name.to_string());
    reg
}

/// Encodes the envelope's status and time with bincode, as a stand-in for
/// a full encoder.
fn encode_head(m: &ServerMsg) -> Result<Vec<u8>, String> {
    let status: u32 = match m.status {
        Status::Yes => 0,
        Status::No => 1,
    };
    bincode::serialize(&(status, m.timestamp.secs, m.timestamp.nanos)).map_err(|e| format!("{e:?}"))
}

/// Prefixes the bytes with the key's first byte and reverses them, as a
/// stand-in for a cipher.
fn scramble(key: &[u8; 32], bytes: Vec<u8>) -> Result<Vec<u8>, String> {
    let mut out = vec![key[0]];
    out.extend(bytes.into_iter().rev());
    Ok(out)
}

#[test]
fn build_time_server_msg_carries_the_given_time() {
    let at = ts(1_700_000_000, 123_456_789);
    assert_eq!(
        ServerMsgFactory::build_time_server_msg(at),
        ServerMsg { status: Status::Yes, timestamp: at, body: ServerMsgBody::Empty }
    );
}

#[test]
fn login_success_at_carries_token_and_key() {
    let key = [9u8; 32];
    let at = ts(100, 5);
    assert_eq!(
        ServerMsgFactory::login_success_at("tok".to_string(), key, at),
        ServerMsg {
            status: Status::Yes,
            timestamp: at,
            body: ServerMsgBody::LoginSuccess { token: "tok".to_string(), public_key: key },
        }
    );
}

#[test]
fn build_login_success_is_stamped_with_the_current_time() {
    let key = [3u8; 32];
    let before = now();
    let msg = ServerMsgFactory::build_login_success_server_msg("tok".to_string(), key);
    let after = now();
    assert_eq!(msg.status, Status::Yes);
    assert_eq!(msg.body, ServerMsgBody::LoginSuccess { token: "tok".to_string(), public_key: key });
    assert!(before.not_after(&msg.timestamp));
    assert!(msg.timestamp.not_after(&after));
}

#[test]
fn build_msg_log_uses_the_users_name_and_the_lines_time() {
    let at = ts(77, 8);
    let msg = ServerMsgFactory::build_msg_log_server_msg(log("stored name", at, "hi all"), &user("ann"));
    assert_eq!(
        msg,
        ServerMsg {
            status: Status::Yes,
            timestamp: at,
            body: ServerMsgBody::ChatRecv {
                direct: false,
                chat_msg: ChatMsg { sender: "ann".to_string(), timestamp: at, content: "hi all".to_string() },
            },
        }
    );
}

#[test]
fn chat_msgs_keep_order_and_fields() {
    let logs = vec![log("ann", ts(1, 0), "a"), log("bob", ts(2, 0), "b"), log("ann", ts(3, 0), "c")];
    assert_eq!(
        ServerMsgFactory::chat_msgs(&logs),
        vec![
            ChatMsg { sender: "ann".to_string(), timestamp: ts(1, 0), content: "a".to_string() },
            ChatMsg { sender: "bob".to_string(), timestamp: ts(2, 0), content: "b".to_string() },
            ChatMsg { sender: "ann".to_string(), timestamp: ts(3, 0), content: "c".to_string() },
        ]
    );
    assert_eq!(ServerMsgFactory::chat_msgs(&Vec::new()), Vec::<ChatMsg>::new());
}

#[test]
fn notices_are_sent_under_the_servers_name() {
    let logs = vec![
        NotificationLog { timestamp: ts(5, 1), contents: "ann joined".to_string() },
        NotificationLog { timestamp: ts(4, 1), contents: "bob left".to_string() },
    ];
    assert_eq!(
        ServerMsgFactory::notices(&logs),
        vec![
            Notification { sender: "SERVER".to_string(), timestamp: ts(5, 1), content: "ann joined".to_string() },
            Notification { sender: "SERVER".to_string(), timestamp: ts(4, 1), content: "bob left".to_string() },
        ]
    );
    assert_eq!(ServerMsgFactory::notices(&Vec::new()), Vec::<Notification>::new());
}

#[test]
fn room_data_at_keeps_the_order_of_what_it_is_given() {
    let reg = registry_with_room(4, "lounge");
    let msg = ServerMsgFactory::room_data_at(
        vec![log("ann", ts(30, 0), "late"), log("bob", ts(10, 0), "early")],
        vec![NotificationLog { timestamp: ts(20, 0), contents: "note".to_string() }],
        vec!["zed".to_string(), "ann".to_string()],
        reg.lookup(4).unwrap(),
        ts(100, 1),
        ts(100, 2),
    );
    assert_eq!(
        msg,
        ServerMsg {
            status: Status::Yes,
            timestamp: ts(100, 1),
            body: ServerMsgBody::RoomData {
                query_ts: ts(100, 2),
                room_name: "lounge".to_string(),
                logs: vec![
                    ChatMsg { sender: "ann".to_string(), timestamp: ts(30, 0), content: "late".to_string() },
                    ChatMsg { sender: "bob".to_string(), timestamp: ts(10, 0), content: "early".to_string() },
                ],
                notifications: vec![Notification {
                    sender: "SERVER".to_string(),
                    timestamp: ts(20, 0),
                    content: "note".to_string(),
                }],
                occupants: vec!["zed".to_string(), "ann".to_string()],
            },
        }
    );
}

#[test]
fn build_room_data_stamps_the_query_at_build_time() {
    let reg = registry_with_room(4, "lounge");
    let before = now();
    let msg = ServerMsgFactory::build_room_data(
        vec![log("ann", ts(30, 0), "old")],
        Vec::new(),
        Vec::new(),
        reg.lookup(4).unwrap(),
    );
    let after = now();
    assert_eq!(msg.status, Status::Yes);
    assert!(before.not_after(&msg.timestamp));
    assert!(msg.timestamp.not_after(&after));
    match msg.body {
        ServerMsgBody::RoomData { query_ts, room_name, logs, notifications, occupants } => {
            assert!(msg.timestamp.not_after(&query_ts));
            assert!(query_ts.not_after(&after));
            assert_eq!(room_name, "lounge");
            assert_eq!(
                logs,
                vec![ChatMsg { sender: "ann".to_string(), timestamp: ts(30, 0), content: "old".to_string() }]
            );
            assert!(notifications.is_empty());
            assert!(occupants.is_empty());
        }
        other => panic!("a room snapshot was expected, got {other:?}"),
    }
}

#[test]
fn serialized_server_msg_returns_the_encoders_bytes() {
    let msg = ServerMsgFactory::build_time_server_msg(ts(258, 3));
    let bytes = SocketSendAdaptor::serialized_server_msg(msg, encode_head).unwrap();
    assert_eq!(bytes, vec![0, 0, 0, 0, 2, 1, 0, 0, 0, 0, 0, 0, 3, 0, 0, 0]);
}

#[test]
fn serialized_server_msg_reports_a_refusal_with_the_message() {
    let msg = ServerMsgFactory::build_time_server_msg(ts(1, 2));
    let r = SocketSendAdaptor::serialized_server_msg(msg.clone(), |_m: &ServerMsg| {
        Err("size limit".to_string())
    });
    assert_eq!(r, Err(SendError::Serialize { detail: "size limit".to_string(), message: msg }));
}

#[test]
fn encrypt_message_wraps_the_ciphers_output() {
    let key = [5u8; 32];
    let r = SocketSendAdaptor::encrypt_message(&key, vec![1, 2, 3], scramble);
    assert_eq!(r, Ok(BinaryFrame { payload: vec![5, 3, 2, 1] }));
}

#[test]
fn encrypt_message_reports_a_refusal() {
    let key = [5u8; 32];
    let r = SocketSendAdaptor::encrypt_message(&key, vec![1, 2, 3], |_k: &[u8; 32], _b: Vec<u8>| {
        Err("no entropy".to_string())
    });
    assert_eq!(r, Err(SendError::Encrypt { detail: "no entropy".to_string() }));
}

#[test]
fn prepare_send_time_encodes_then_seals() {
    let key = [8u8; 32];
    let r = SocketSendAdaptor::prepare_send_time(&key, ts(258, 3), encode_head, scramble);
    assert_eq!(
        r,
        Ok(BinaryFrame { payload: vec![8, 0, 0, 0, 3, 0, 0, 0, 0, 0, 0, 1, 2, 0, 0, 0, 0] })
    );
}

#[test]
fn prepare_send_time_hands_the_built_message_to_the_encoder() {
    let key = [8u8; 32];
    let seen: Cell<Option<ServerMsg>> = Cell::new(None);
    let r = SocketSendAdaptor::prepare_send_time(
        &key,
        ts(4, 5),
        |m: &ServerMsg| {
            seen.set(Some(m.clone()));
            Ok(vec![1])
        },
        scramble,
    );
    assert_eq!(r, Ok(BinaryFrame { payload: vec![8, 1] }));
    assert_eq!(seen.take(), Some(ServerMsgFactory::build_time_server_msg(ts(4, 5))));
}

#[test]
fn a_refused_encoding_stops_before_the_cipher() {
    let key = [8u8; 32];
    let sealed = Cell::new(false);
    let r = SocketSendAdaptor::prepare_send_time(
        &key,
        ts(4, 5),
        |_m: &ServerMsg| Err("bad".to_string()),
        |_k: &[u8; 32], b: Vec<u8>| {
            sealed.set(true);
            Ok(b)
        },
    );
    assert_eq!(
        r,
        Err(SendError::Serialize {
            detail: "bad".to_string(),
            message: ServerMsgFactory::build_time_server_msg(ts(4, 5)),
        })
    );
    assert!(!sealed.get());
}

#[test]
fn a_refused_sealing_is_reported() {
    let key = [8u8; 32];
    let r = SocketSendAdaptor::prepare_send_time(&key, ts(4, 5), encode_head, |_k: &[u8; 32], _b: Vec<u8>| {
        Err("rng".to_string())
    });
    assert_eq!(r, Err(SendError::Encrypt { detail: "rng".to_string() }));
}

#[test]
fn prepare_send_msg_log_seals_the_chat_delivery() {
    let key = [2u8; 32];
    let seen: Cell<Option<ServerMsg>> = Cell::new(None);
    let r = SocketSendAdaptor::prepare_send_msg_log(
        log("x", ts(6, 7), "text"),
        &user("ann"),
        &key,
        |m: &ServerMsg| {
            seen.set(Some(m.clone()));
            encode_head(m)
        },
        scramble,
    );
    assert_eq!(
        r,
        Ok(BinaryFrame { payload: vec![2, 0, 0, 0, 7, 0, 0, 0, 0, 0, 0, 0, 6, 0, 0, 0, 0] })
    );
    assert_eq!(
        seen.take(),
        Some(ServerMsgFactory::build_msg_log_server_msg(log("x", ts(6, 7), "text"), &user("ann")))
    );
}

#[test]
fn on_login_success_is_encoded_then_sealed() {
    let public_key = [3u8; 32];
    let session_key = [6u8; 32];
    let seen: Cell<Option<ServerMsg>> = Cell::new(None);
    let before = now();
    let r = SocketSendAdaptor::on_login_success(
        "tok".to_string(),
        public_key,
        &session_key,
        |m: &ServerMsg| {
            seen.set(Some(m.clone()));
            Ok(vec![4, 5, 6])
        },
        scramble,
    );
    let after = now();
    assert_eq!(r, Ok(BinaryFrame { payload: vec![6, 6, 5, 4] }));
    let built = seen.take().unwrap();
    assert_eq!(built.status, Status::Yes);
    assert_eq!(built.body, ServerMsgBody::LoginSuccess { token: "tok".to_string(), public_key });
    assert!(before.not_after(&built.timestamp));
    assert!(built.timestamp.not_after(&after));
}

#[test]
fn on_login_success_never_sends_the_encoders_bytes_as_they_are() {
    let public_key = [3u8; 32];
    let session_key = [6u8; 32];
    let r = SocketSendAdaptor::on_login_success(
        "tok".to_string(),
        public_key,
        &session_key,
        |_m: &ServerMsg| Ok(vec![7]),
        scramble,
    );
    assert_eq!(r, Ok(BinaryFrame { payload: vec![6, 7] }));
    assert_ne!(r, Ok(BinaryFrame { payload: vec![7] }));
}

#[test]
fn on_login_success_seals_under_the_key_it_is_given() {
    let public_key = [3u8; 32];
    let seen_key: Cell<Option<[u8; 32]>> = Cell::new(None);
    let seen_bytes: Cell<Option<Vec<u8>>> = Cell::new(None);
    let session_key = [9u8; 32];
    let r = SocketSendAdaptor::on_login_success(
        "tok".to_string(),
        public_key,
        &session_key,
        |_m: &ServerMsg| Ok(vec![1, 2]),
        |k: &[u8; 32], b: Vec<u8>| {
            seen_key.set(Some(*k));
            seen_bytes.set(Some(b));
            Ok(vec![0xAA])
        },
    );
    assert_eq!(r, Ok(BinaryFrame { payload: vec![0xAA] }));
    assert_eq!(seen_key.take(), Some(session_key));
    assert_eq!(seen_bytes.take(), Some(vec![1, 2]));
}

#[test]
fn on_login_success_reports_a_refused_encoding() {
    let public_key = [3u8; 32];
    let session_key = [6u8; 32];
    let sealed = Cell::new(false);
    let r = SocketSendAdaptor::on_login_success(
        "tok".to_string(),
        public_key,
        &session_key,
        |_m: &ServerMsg| Err("bad".to_string()),
        |_k: &[u8; 32], b: Vec<u8>| {
            sealed.set(true);
            Ok(b)
        },
    );
    match r {
        Err(SendError::Serialize { detail, message }) => {
            assert_eq!(detail, "bad");
            assert_eq!(message.status, Status::Yes);
            assert_eq!(
                message.body,
                ServerMsgBody::LoginSuccess { token: "tok".to_string(), public_key }
            );
        }
        other => panic!("a refused encoding was expected, got {other:?}"),
    }
    assert!(!sealed.get());
}

#[test]
fn on_login_success_reports_a_refused_sealing() {
    let public_key = [3u8; 32];
    let session_key = [6u8; 32];
    let r = SocketSendAdaptor::on_login_success(
        "tok".to_string(),
        public_key,
        &session_key,
        encode_head,
        |_k: &[u8; 32], _b: Vec<u8>| Err("rng".to_string()),
    );
    assert_eq!(r, Err(SendError::Encrypt { detail: "rng".to_string() }));
}

#[test]
fn room_data_response_seals_the_snapshot() {
    let key = [1u8; 32];
    let reg = registry_with_room(4, "lounge");
    let seen: Cell<Option<ServerMsg>> = Cell::new(None);
    let r = SocketSendAdaptor::room_data_response(
        &key,
        vec![log("ann", ts(1, 0), "a"), log("bob", ts(2, 0), "b")],
        vec![NotificationLog { timestamp: ts(3, 0), contents: "n".to_string() }],
        vec!["ann".to_string(), "bob".to_string()],
        reg.lookup(4).unwrap(),
        |m: &ServerMsg| {
            seen.set(Some(m.clone()));
            Ok(vec![9, 8])
        },
        scramble,
    );
    assert_eq!(r, Ok(BinaryFrame { payload: vec![1, 8, 9] }));
    match seen.take().unwrap().body {
        ServerMsgBody::RoomData { room_name, logs, notifications, occupants, .. } => {
            assert_eq!(room_name, "lounge");
            assert_eq!(logs.len(), 2);
            assert_eq!(logs[0].sender, "ann");
            assert_eq!(logs[1].sender, "bob");
            assert_eq!(notifications.len(), 1);
            assert_eq!(notifications[0].sender, "SERVER");
            assert_eq!(occupants, vec!["ann".to_string(), "bob".to_string()]);
        }
        other => panic!("a room snapshot was expected, got {other:?}"),
    }
}
