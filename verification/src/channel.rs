//! The sending half of an unbounded in-process queue.
//!
//! Reply channels, the chat queue and the command queue are all
//! `futures_channel::mpsc::UnboundedSender`s. A sender is opaque here: the
//! crate carries it, compares it in contracts, and hands messages to it.

use futures_channel::mpsc::UnboundedSender;
use vstd::prelude::*;

verus! {

#[verifier::external_type_specification]
#[verifier::external_body]
#[verifier::reject_recursive_types(T)]
pub struct ExUnboundedSender<T>(UnboundedSender<T>);

/// Hands `msg` to the queue behind `channel` with
/// `UnboundedSender::unbounded_send`, without waiting.
///
/// Whether the queue takes the message depends on whether its receiving
/// half is still alive, so nothing is promised about which way the call
/// goes. What is trusted: when the queue refuses, the message that comes
/// back is the one that was handed in (`TrySendError::into_inner` gives
/// back the value the send was attempted with).
///
/// The queue counts its messages in a machine word and panics rather than
/// let that count overflow; a queue that long does not fit in memory.
#[verifier::external_body]
pub(crate) fn try_send<T>(channel: &UnboundedSender<T>, msg: T) -> (r: Result<(), T>)
    ensures
        r matches Err(back) ==> back == msg,
{
    match channel.unbounded_send(msg) {
        Ok(()) => Ok(()),
        Err(e) => Err(e.into_inner()),
    }
}

} // verus!
