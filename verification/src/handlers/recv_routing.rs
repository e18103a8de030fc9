//! The receive side of a connection: what to do with each inbound frame.
//!
//! A connection is either reading or terminated. Each frame is classified
//! once, in arrival order, into one routing decision. The task that owns
//! the socket decodes text frames and hands every frame to
//! `recv_routing_handler`, which carries the decision out.

use crate::channel::try_send;
use crate::domain::room::{occupies, without_occupant, RoomRegistry};
use crate::domain::user::User;
use crate::handlers::commands::Commands;
use crate::protocol::{ClientMsg, ClientMsgBody};
use futures_channel::mpsc::UnboundedSender;
use vstd::prelude::*;

verus! {

/// Where a connection stands.
#[derive(Clone, Copy, Debug, PartialEq, Eq, Structural)]
pub enum ConnState {
    /// Frames are being read and routed.
    Reading,
    /// The connection was torn down; nothing is routed any more.
    Terminated,
}

/// One thing that arrived on a connection.
#[derive(Clone, Debug, PartialEq, Eq)]
pub enum Inbound {
    /// A close frame.
    Close,
    /// The transport reported an error.
    TransportError,
    /// A text frame, with the request its payload decodes to, or `None`
    /// where the payload is no well-formed request.
    Text { decoded: Option<ClientMsg> },
    /// Any other frame.
    Other,
}

/// Why a text frame was dropped.
#[derive(Clone, Copy, Debug, PartialEq, Eq, Structural)]
pub enum DropReason {
    /// The payload is no well-formed request.
    Malformed,
    /// The request carries no token.
    NoToken,
    /// The request is of a kind that is not routed.
    Unrecognised,
}

/// What is to be done with one inbound frame.
#[derive(Clone, Debug, PartialEq, Eq)]
pub enum Routing {
    /// Take the user out of its room and stop.
    Teardown,
    /// Forward the whole request to the chat queue.
    PublishChat(ClientMsg),
    /// Forward the command to the command queue.
    RunCommand(Commands),
    /// Drop the frame and go on reading.
    Drop(DropReason),
    /// Nothing to do.
    Ignore,
}

/// What became of one inbound frame.
#[derive(Clone, Debug, PartialEq, Eq)]
pub enum RouteOutcome {
    /// The user was taken out of its room; `removed` says whether the
    /// room's occupant table held the user.
    Disconnected { removed: bool },
    /// The request is on the chat queue.
    Published,
    /// The command is on the command queue.
    CommandQueued(Commands),
    /// The chat queue did not take the request.
    ChatQueueClosed(ClientMsg),
    /// The command queue did not take the command.
    CommandQueueClosed(Commands),
    /// The frame was dropped.
    Dropped(DropReason),
    /// The frame called for nothing.
    Ignored,
}

/// The routing of a decoded request: without a token it is dropped,
/// whatever it asks for; with one, a chat line goes to the chat queue, a
/// time query becomes a command, and anything else is dropped.
pub open spec fn routing_of(msg: ClientMsg) -> Routing {
    if msg.token is None {
        Routing::Drop(DropReason::NoToken)
    } else {
        match msg.body {
            ClientMsgBody::SendToRoom { .. } => Routing::PublishChat(msg),
            ClientMsgBody::GetTime => Routing::RunCommand(Commands::GetTime),
            ClientMsgBody::Reserved => Routing::Drop(DropReason::Unrecognised),
        }
    }
}

/// The state after `inbound` arrives in `state`, and what is to be done
/// with it.
pub open spec fn classify(state: ConnState, inbound: Inbound) -> (ConnState, Routing) {
    match state {
        ConnState::Terminated => (ConnState::Terminated, Routing::Ignore),
        ConnState::Reading => match inbound {
            Inbound::Close => (ConnState::Terminated, Routing::Teardown),
            Inbound::TransportError => (ConnState::Terminated, Routing::Teardown),
            Inbound::Other => (ConnState::Reading, Routing::Ignore),
            Inbound::Text { decoded: None } => (
                ConnState::Reading,
                Routing::Drop(DropReason::Malformed),
            ),
            Inbound::Text { decoded: Some(msg) } => (ConnState::Reading, routing_of(msg)),
        },
    }
}

/// Whether `routing` puts anything on the chat queue or the command queue.
pub open spec fn forwards(routing: Routing) -> bool {
    routing is PublishChat || routing is RunCommand
}

/// What carrying out `routing` may report, where `was_occupant` says
/// whether the user was in its room's occupant table beforehand.
pub open spec fn carries_out(routing: Routing, outcome: RouteOutcome, was_occupant: bool) -> bool {
    match routing {
        Routing::Teardown => outcome == (RouteOutcome::Disconnected { removed: was_occupant }),
        Routing::PublishChat(msg) => outcome == RouteOutcome::Published || outcome
            == RouteOutcome::ChatQueueClosed(msg),
        Routing::RunCommand(cmd) => outcome == RouteOutcome::CommandQueued(cmd) || outcome
            == RouteOutcome::CommandQueueClosed(cmd),
        Routing::Drop(reason) => outcome == RouteOutcome::Dropped(reason),
        Routing::Ignore => outcome == RouteOutcome::Ignored,
    }
}

/// Routes a decoded request.
pub fn route_client_msg(msg: ClientMsg) -> (routing: Routing)
    ensures
        routing == routing_of(msg),
{
    if msg.token.is_none() {
        return Routing::Drop(DropReason::NoToken);
    }
    match msg.body {
        ClientMsgBody::SendToRoom { .. } => Routing::PublishChat(msg),
        ClientMsgBody::GetTime => Routing::RunCommand(Commands::GetTime),
        ClientMsgBody::Reserved => Routing::Drop(DropReason::Unrecognised),
    }
}

/// Classifies one inbound frame: the next state and the routing decision.
pub fn route(state: ConnState, inbound: Inbound) -> (r: (ConnState, Routing))
    ensures
        r == classify(state, inbound),
{
    match state {
        ConnState::Terminated => (ConnState::Terminated, Routing::Ignore),
        ConnState::Reading => match inbound {
            Inbound::Close => (ConnState::Terminated, Routing::Teardown),
            Inbound::TransportError => (ConnState::Terminated, Routing::Teardown),
            Inbound::Other => (ConnState::Reading, Routing::Ignore),
            Inbound::Text { decoded: None } => (
                ConnState::Reading,
                Routing::Drop(DropReason::Malformed),
            ),
            Inbound::Text { decoded: Some(msg) } => (ConnState::Reading, route_client_msg(msg)),
        },
    }
}

/// Takes `user` out of the occupant table of the room it is in. A room
/// that is unknown, or that does not list the user, is left as it is.
/// Returns whether an entry was removed.
pub fn remove_user(room_map: &mut RoomRegistry, user: &User) -> (removed: bool)
    requires
        old(room_map).wf(),
    ensures
        final(room_map).wf(),
        removed == occupies(old(room_map)@, user.room, user.id),
        final(room_map)@ == without_occupant(old(room_map)@, user.room, user.id),
        !occupies(final(room_map)@, user.room, user.id),
{
    room_map.remove_occupant(user.room, user.id)
}

/// Handles one inbound frame of the connection of `user`: classifies it
/// and carries the decision out. Returns the connection's next state and
/// what became of the frame.
///
/// The registry changes only on teardown, and then by the removal of
/// `user` from its room. A queue that does not take what is forwarded to
/// it is reported, with what it did not take.
pub fn recv_routing_handler(
    state: ConnState,
    inbound: Inbound,
    user: &User,
    command_pipe: &UnboundedSender<Commands>,
    message_pipe: &UnboundedSender<ClientMsg>,
    room_map: &mut RoomRegistry,
) -> (r: (ConnState, RouteOutcome))
    requires
        old(room_map).wf(),
    ensures
        final(room_map).wf(),
        r.0 == classify(state, inbound).0,
        carries_out(
            classify(state, inbound).1,
            r.1,
            occupies(old(room_map)@, user.room, user.id),
        ),
        final(room_map)@ == if classify(state, inbound).1 is Teardown {
            without_occupant(old(room_map)@, user.room, user.id)
        } else {
            old(room_map)@
        },
        classify(state, inbound).1 is Teardown ==> !occupies(
            final(room_map)@,
            user.room,
            user.id,
        ),
{
    let (next, routing) = route(state, inbound);
    let outcome = match routing {
        Routing::Teardown => RouteOutcome::Disconnected { removed: remove_user(room_map, user) },
        Routing::PublishChat(msg) => match try_send(message_pipe, msg) {
            Ok(()) => RouteOutcome::Published,
            Err(back) => RouteOutcome::ChatQueueClosed(back),
        },
        Routing::RunCommand(cmd) => match try_send(command_pipe, cmd) {
            Ok(()) => RouteOutcome::CommandQueued(cmd),
            Err(back) => RouteOutcome::CommandQueueClosed(back),
        },
        Routing::Drop(reason) => RouteOutcome::Dropped(reason),
        Routing::Ignore => RouteOutcome::Ignored,
    };
    (next, outcome)
}

/// How many teardowns a connection that starts in `state` performs while
/// `events` arrive one after the other.
pub open spec fn teardowns(state: ConnState, events: Seq<Inbound>) -> nat
    decreases events.len(),
{
    if events.len() == 0 {
        0
    } else {
        let step = classify(state, events[0]);
        let here: nat = if step.1 is Teardown {
            1
        } else {
            0
        };
        here + teardowns(step.0, events.drop_first())
    }
}

/// The state of a connection that starts in `state` after all of `events`
/// have arrived.
pub open spec fn state_after(state: ConnState, events: Seq<Inbound>) -> ConnState
    decreases events.len(),
{
    if events.len() == 0 {
        state
    } else {
        state_after(classify(state, events[0]).0, events.drop_first())
    }
}

/// The decisions taken on a connection that starts in `state` while
/// `events` arrive one after the other: one per frame, in arrival order.
pub open spec fn routings(state: ConnState, events: Seq<Inbound>) -> Seq<Routing>
    decreases events.len(),
{
    if events.len() == 0 {
        Seq::empty()
    } else {
        let step = classify(state, events[0]);
        seq![step.1] + routings(step.0, events.drop_first())
    }
}

/// Whether `inbound` ends a connection: a close frame or a transport
/// error.
pub open spec fn ends_connection(inbound: Inbound) -> bool {
    inbound is Close || inbound is TransportError
}

/// A text frame whose payload is no well-formed request puts nothing on
/// either queue, tears nothing down, and leaves the connection in the
/// state it was in.
pub proof fn lemma_malformed_text_is_dropped(state: ConnState)
    ensures
        classify(state, Inbound::Text { decoded: None }).0 == state,
        !forwards(classify(state, Inbound::Text { decoded: None }).1),
        !(classify(state, Inbound::Text { decoded: None }).1 is Teardown),
        state is Reading ==> classify(state, Inbound::Text { decoded: None }).1 == Routing::Drop(
            DropReason::Malformed,
        ),
{
}

/// A request without a token puts nothing on either queue, whatever its
/// body is, and leaves the connection in the state it was in.
pub proof fn lemma_missing_token_forwards_nothing(state: ConnState, msg: ClientMsg)
    requires
        msg.token is None,
    ensures
        classify(state, Inbound::Text { decoded: Some(msg) }).0 == state,
        !forwards(classify(state, Inbound::Text { decoded: Some(msg) }).1),
        !(classify(state, Inbound::Text { decoded: Some(msg) }).1 is Teardown),
        state is Reading ==> classify(state, Inbound::Text { decoded: Some(msg) }).1
            == Routing::Drop(DropReason::NoToken),
{
}

/// A request with a token is forwarded exactly when it is a chat line or a
/// time query on a connection that is still reading: the chat line goes to
/// the chat queue whole, the time query becomes the time command.
pub proof fn lemma_authorised_requests_are_forwarded(msg: ClientMsg)
    requires
        msg.token is Some,
    ensures
        msg.body is SendToRoom ==> classify(ConnState::Reading, Inbound::Text { decoded: Some(msg) })
            == (ConnState::Reading, Routing::PublishChat(msg)),
        msg.body is GetTime ==> classify(ConnState::Reading, Inbound::Text { decoded: Some(msg) })
            == (ConnState::Reading, Routing::RunCommand(Commands::GetTime)),
        msg.body is Reserved ==> !forwards(
            classify(ConnState::Reading, Inbound::Text { decoded: Some(msg) }).1,
        ),
        !forwards(classify(ConnState::Terminated, Inbound::Text { decoded: Some(msg) }).1),
{
}

/// Every frame gets exactly one decision, the decisions come in arrival
/// order, and the decision on a frame depends on nothing but the frames
/// that arrived before it and the frame itself.
pub proof fn lemma_one_decision_per_frame(state: ConnState, events: Seq<Inbound>, i: int)
    requires
        0 <= i < events.len(),
    ensures
        routings(state, events).len() == events.len(),
        routings(state, events)[i] == classify(state_after(state, events.take(i)), events[i]).1,
    decreases events.len(),
{
    let step = classify(state, events[0]);
    let rest = events.drop_first();
    lemma_routings_len(step.0, rest);
    if i == 0 {
        assert(events.take(0) =~= Seq::<Inbound>::empty());
    } else {
        lemma_one_decision_per_frame(step.0, rest, i - 1);
        assert(events.take(i).drop_first() =~= rest.take(i - 1));
        assert(events.take(i)[0] == events[0]);
    }
}

/// There are as many decisions as frames.
pub proof fn lemma_routings_len(state: ConnState, events: Seq<Inbound>)
    ensures
        routings(state, events).len() == events.len(),
    decreases events.len(),
{
    if events.len() > 0 {
        lemma_routings_len(classify(state, events[0]).0, events.drop_first());
    }
}

/// A terminated connection stays terminated and tears nothing down again.
pub proof fn lemma_terminated_is_final(events: Seq<Inbound>)
    ensures
        teardowns(ConnState::Terminated, events) == 0,
        state_after(ConnState::Terminated, events) == ConnState::Terminated,
    decreases events.len(),
{
    if events.len() > 0 {
        lemma_terminated_is_final(events.drop_first());
    }
}

/// Teardown runs at most once per connection, however many close frames
/// and transport errors arrive and in whatever order; it runs exactly once
/// when at least one of them arrives on a reading connection, and then the
/// connection ends terminated.
pub proof fn lemma_teardown_runs_once(events: Seq<Inbound>)
    ensures
        teardowns(ConnState::Reading, events) <= 1,
        teardowns(ConnState::Reading, events) == 1 <==> exists|i: int|
            0 <= i < events.len() && ends_connection(#[trigger] events[i]),
        teardowns(ConnState::Reading, events) == 1 <==> state_after(ConnState::Reading, events)
            == ConnState::Terminated,
    decreases events.len(),
{
    if events.len() > 0 {
        let rest = events.drop_first();
        if ends_connection(events[0]) {
            lemma_terminated_is_final(rest);
        } else {
            lemma_teardown_runs_once(rest);
            if exists|i: int| 0 <= i < rest.len() && ends_connection(#[trigger] rest[i]) {
                let i = choose|i: int| 0 <= i < rest.len() && ends_connection(#[trigger] rest[i]);
                assert(ends_connection(events[i + 1]));
            }
            if exists|i: int| 0 <= i < events.len() && ends_connection(#[trigger] events[i]) {
                let i = choose|i: int|
                    0 <= i < events.len() && ends_connection(#[trigger] events[i]);
                assert(ends_connection(rest[i - 1]));
            }
        }
    }
}

} // verus!
