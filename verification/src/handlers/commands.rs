//! The command pipeline: one command in, one reply out on the sender's own
//! reply channel.
//!
//! The task that owns a connection takes commands off its queue one at a
//! time and hands each to `command_handler`. Resolving the reply channel
//! and choosing the reply are decisions with exact contracts; the hand-over
//! to the channel is the one step whose outcome the crate does not decide.

use crate::channel::try_send;
use crate::clock::utc_now;
use crate::domain::room::{occupies, Room, RoomRegistry, RoomView};
use crate::domain::user::User;
use crate::handlers::recv_routing::{classify, ConnState, Inbound, Routing};
use crate::protocol::{ClientMsg, ServerMsg, ServerMsgBodyView, ServerMsgView, Status, Timestamp};
use crate::services::message_builder::{time_msg, ServerMsgFactory};
use futures_channel::mpsc::UnboundedSender;
use vstd::prelude::*;

verus! {

/// The commands a client can issue.
#[derive(Clone, Copy, Debug, PartialEq, Eq, Structural)]
pub enum Commands {
    /// Ask for the server's current time.
    GetTime,
}

/// The reply that answers `cmd` when it is executed at `now`.
pub open spec fn reply_to(cmd: Commands, now: Timestamp) -> ServerMsgView {
    match cmd {
        Commands::GetTime => time_msg(now),
    }
}

/// One reply, addressed to one occupant: who it is for, the sending half
/// of that occupant's reply channel, and the message.
#[derive(Debug)]
pub struct Dispatch<'a> {
    pub recipient: u64,
    pub commander: &'a UnboundedSender<ServerMsg>,
    pub reply: ServerMsg,
}

pub struct DispatchView {
    pub recipient: u64,
    pub commander: UnboundedSender<ServerMsg>,
    pub reply: ServerMsgView,
}

impl<'a> View for Dispatch<'a> {
    type V = DispatchView;

    open spec fn view(&self) -> DispatchView {
        DispatchView { recipient: self.recipient, commander: *self.commander, reply: self.reply@ }
    }
}

/// Everything that executing `cmd` for `user` in `room` at `now` sends:
/// one reply, on the sender's own reply channel, when the room lists the
/// sender, and nothing otherwise.
pub open spec fn dispatches(room: RoomView, user: u64, cmd: Commands, now: Timestamp) -> Seq<
    DispatchView,
> {
    if room.occupants.contains_key(user) {
        seq![
            DispatchView {
                recipient: user,
                commander: room.occupants[user].channel,
                reply: reply_to(cmd, now),
            },
        ]
    } else {
        Seq::empty()
    }
}

/// How a command was dealt with when nothing went wrong.
#[derive(Clone, Copy, Debug, PartialEq, Eq, Structural)]
pub enum CommandOutcome {
    /// The reply stamped `at` was handed to the reply channel of user `to`.
    Replied { to: u64, at: Timestamp },
    /// The sender's room is not in the registry; the command was set
    /// aside and nothing was sent.
    UnknownRoom { room: u64 },
}

/// Why a command could not be answered.
#[derive(Clone, Debug, PartialEq, Eq)]
pub enum CommandError {
    /// The sender is not in the occupant table of its own room.
    SenderNotInRoom { room: u64, user: u64 },
    /// The sender's reply channel did not take the reply; `reply` is the
    /// message that could not be delivered.
    DeliveryFailed { user: u64, reply: ServerMsg },
}

/// Builds the reply that answers `cmd` when it is executed at `now`.
pub fn reply_for(cmd: Commands, now: Timestamp) -> (msg: ServerMsg)
    ensures
        msg@ == reply_to(cmd, now),
{
    match cmd {
        Commands::GetTime => ServerMsgFactory::build_time_server_msg(now),
    }
}

/// Resolves the sender's own entry in `room` and addresses the reply to
/// `cmd` to it. There is exactly one addressee, the sender; a sender that
/// the room does not list is an error.
pub fn prepare_route_command<'a>(room: &'a Room, user: &User, cmd: Commands, now: Timestamp) -> (r:
    Result<Dispatch<'a>, CommandError>)
    ensures
        match r {
            Ok(d) => {
                &&& room@.occupants.contains_key(user.id)
                &&& d@ == (DispatchView {
                    recipient: user.id,
                    commander: room@.occupants[user.id].channel,
                    reply: reply_to(cmd, now),
                })
                &&& dispatches(room@, user.id, cmd, now) == seq![d@]
            },
            Err(e) => {
                &&& !room@.occupants.contains_key(user.id)
                &&& dispatches(room@, user.id, cmd, now) == Seq::<DispatchView>::empty()
                &&& e == (CommandError::SenderNotInRoom { room: room@.id, user: user.id })
            },
        },
{
    match room.occupant(user.id) {
        Some(entry) => {
            let d = Dispatch {
                recipient: user.id,
                commander: &entry.channel,
                reply: reply_for(cmd, now),
            };
            assert(dispatches(room@, user.id, cmd, now) =~= seq![d@]);
            Ok(d)
        },
        None => Err(CommandError::SenderNotInRoom { room: room.id(), user: user.id }),
    }
}

/// Hands the reply of `dispatch` to its reply channel, once. A channel
/// that does not take it is reported together with the undelivered reply.
pub fn route_command(dispatch: Dispatch<'_>) -> (r: Result<CommandOutcome, CommandError>)
    ensures
        match r {
            Ok(outcome) => outcome == (CommandOutcome::Replied {
                to: dispatch.recipient,
                at: dispatch.reply.timestamp,
            }),
            Err(e) => e == (CommandError::DeliveryFailed {
                user: dispatch.recipient,
                reply: dispatch.reply,
            }),
        },
{
    let at = dispatch.reply.timestamp;
    match try_send(dispatch.commander, dispatch.reply) {
        Ok(()) => Ok(CommandOutcome::Replied { to: dispatch.recipient, at }),
        Err(reply) => Err(CommandError::DeliveryFailed { user: dispatch.recipient, reply }),
    }
}

/// Executes one command of `user`.
///
/// A room that the registry does not know is no error: the command is set
/// aside. A sender missing from its own room is an error. Otherwise the
/// reply, stamped with the current time, is handed to the sender's reply
/// channel and to no other; whether the channel takes it is reported.
pub fn command_handler(cmd: Commands, user: &User, rooms: &RoomRegistry) -> (r: Result<
    CommandOutcome,
    CommandError,
>)
    requires
        rooms.wf(),
    ensures
        !rooms@.contains_key(user.room) ==> r == Ok::<CommandOutcome, CommandError>(
            CommandOutcome::UnknownRoom { room: user.room },
        ),
        rooms@.contains_key(user.room) && !occupies(rooms@, user.room, user.id) ==> r == Err::<
            CommandOutcome,
            CommandError,
        >(CommandError::SenderNotInRoom { room: user.room, user: user.id }),
        occupies(rooms@, user.room, user.id) ==> match r {
            Ok(CommandOutcome::Replied { to, at }) => to == user.id,
            Err(CommandError::DeliveryFailed { user: addressee, reply }) => {
                &&& addressee == user.id
                &&& reply@ == reply_to(cmd, reply.timestamp)
            },
            _ => false,
        },
{
    proof {
        rooms.lemma_wf_model();
    }
    match rooms.lookup(user.room) {
        Some(current_room) => {
            let dispatch = prepare_route_command(current_room, user, cmd, utc_now())?;
            route_command(dispatch)
        },
        None => Ok(CommandOutcome::UnknownRoom { room: user.room }),
    }
}

/// A time query that carries a token, sent by a user whom its room lists,
/// becomes the time command, and executing that command at `now` sends
/// exactly one message: a bare acknowledgement stamped `now`, on the
/// sender's own reply channel. Nothing is addressed to anyone but the
/// sender.
pub proof fn lemma_time_query_gets_one_reply(
    rooms: Map<u64, RoomView>,
    room: u64,
    user: u64,
    msg: ClientMsg,
    now: Timestamp,
)
    requires
        msg.token is Some,
        msg.body is GetTime,
        occupies(rooms, room, user),
    ensures
        classify(ConnState::Reading, Inbound::Text { decoded: Some(msg) }) == (
            ConnState::Reading,
            Routing::RunCommand(Commands::GetTime),
        ),
        dispatches(rooms[room], user, Commands::GetTime, now).len() == 1,
        dispatches(rooms[room], user, Commands::GetTime, now)[0].recipient == user,
        dispatches(rooms[room], user, Commands::GetTime, now)[0].commander
            == rooms[room].occupants[user].channel,
        dispatches(rooms[room], user, Commands::GetTime, now)[0].reply == (ServerMsgView {
            status: Status::Yes,
            timestamp: now,
            body: ServerMsgBodyView::Empty,
        }),
        forall|i: int|
            0 <= i < dispatches(rooms[room], user, Commands::GetTime, now).len() ==> (
            #[trigger] dispatches(rooms[room], user, Commands::GetTime, now)[i]).recipient == user,
{
}

/// A command of a user whom its room does not list sends nothing.
pub proof fn lemma_unlisted_sender_gets_no_reply(
    room: RoomView,
    user: u64,
    cmd: Commands,
    now: Timestamp,
)
    requires
        !room.occupants.contains_key(user),
    ensures
        dispatches(room, user, cmd, now).len() == 0,
{
}

} // verus!
