//! The channels between the registry and the connection supervisors: one
//! bounded dispatch channel per worker, and one single-use reply slot per
//! invocation.

use crate::proto::{NodeMsg, RegistryMsg};
use std::sync::Arc;
use tokio::sync::mpsc;
use tokio::sync::oneshot;
use vstd::prelude::*;

verus! {

#[verifier::external_type_specification]
#[verifier::external_body]
#[verifier::reject_recursive_types(T)]
pub struct ExDispatchSender<T>(mpsc::Sender<T>);

#[verifier::external_type_specification]
#[verifier::external_body]
#[verifier::reject_recursive_types(T)]
pub struct ExDispatchReceiver<T>(mpsc::Receiver<T>);

#[verifier::external_type_specification]
#[verifier::external_body]
#[verifier::reject_recursive_types(T)]
pub struct ExReplyReceiver<T>(oneshot::Receiver<T>);

// The receiving half of a reply slot is a future of this error, so the
// declaration of the half asks for the declaration of the error.
#[verifier::external_type_specification]
#[verifier::external_body]
pub struct ExRecvError(oneshot::error::RecvError);

/// The largest depth a dispatch channel can be made with.
pub open spec fn max_channel_size() -> nat {
    (usize::MAX / 8) as nat
}

/// Whether a dispatch channel of depth `size` can be made.
pub open spec fn valid_channel_size(size: usize) -> bool {
    0 < size <= max_channel_size()
}

/// `tokio::sync::mpsc::channel`: a bounded channel of depth `size`. The call
/// panics on a depth of zero or above an eighth of `usize::MAX`, which the
/// precondition leaves out. Nothing is claimed of the two halves.
#[verifier::external_body]
pub(crate) fn dispatch_channel(size: usize) -> (halves: (
    mpsc::Sender<NodeMsg>,
    mpsc::Receiver<NodeMsg>,
))
    requires
        valid_channel_size(size),
{
    mpsc::channel(size)
}

/// `tokio::sync::oneshot::channel`: a fresh reply slot. Nothing is claimed
/// of the two halves.
#[verifier::external_body]
pub(crate) fn reply_slot() -> (halves: (oneshot::Sender<RegistryMsg>, oneshot::Receiver<RegistryMsg>)) {
    oneshot::channel()
}

/// `tokio::sync::oneshot::Sender::send`: hands `msg` to the slot's waiter.
/// Whether the waiter is still there is not known beforehand; where it is
/// gone the call gives the message back, which is all that is claimed.
#[verifier::external_body]
pub(crate) fn deliver(slot: oneshot::Sender<RegistryMsg>, msg: RegistryMsg) -> (outcome: Result<
    (),
    RegistryMsg,
>)
    ensures
        outcome matches Err(back) ==> back == msg,
{
    slot.send(msg)
}

/// `tokio::sync::mpsc::Receiver::try_recv`: the next message waiting on the
/// dispatch channel, or `None` where none waits or the channel is closed.
#[verifier::external_body]
pub(crate) fn poll_dispatch(receiver: &mut mpsc::Receiver<NodeMsg>) -> (next: Option<NodeMsg>) {
    receiver.try_recv().ok()
}

/// `Arc::clone`: another pointer to the same value.
#[verifier::external_body]
pub(crate) fn share<T>(pointer: &Arc<T>) -> (other: Arc<T>)
    ensures
        other == *pointer,
{
    Arc::clone(pointer)
}

} // verus!
