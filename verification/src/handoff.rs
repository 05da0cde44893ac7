//! The hand-off channel: a bounded queue of correlation tokens between the
//! fast and the background execution context.

use crate::error::HandlerError;
use crate::sizing::capacity_ok;
use crate::sizing::Sizing;
use tokio::sync::mpsc::error::SendError;
use tokio::sync::mpsc::Receiver;
use tokio::sync::mpsc::Sender;
use vstd::prelude::*;
use vstd::std_specs::convert::FromSpecImpl;

verus! {

/// `tokio::sync::mpsc::Sender`, the sending end of a bounded channel.
/// Nothing is known of what it holds but the capacity that it was made
/// with.
#[verifier::external_type_specification]
#[verifier::external_body]
#[verifier::reject_recursive_types(T)]
pub struct ExSender<T>(tokio::sync::mpsc::Sender<T>);

/// `tokio::sync::mpsc::Receiver`, the receiving end of a bounded channel.
/// Nothing is known of what it holds.
#[verifier::external_type_specification]
#[verifier::external_body]
#[verifier::reject_recursive_types(T)]
pub struct ExReceiver<T>(tokio::sync::mpsc::Receiver<T>);

/// `tokio::sync::mpsc::error::SendError`, the error of a send on a channel
/// whose receiving end is gone. It carries the value that was not sent.
#[verifier::external_type_specification]
#[verifier::external_body]
#[verifier::reject_recursive_types(T)]
pub struct ExSendError<T>(tokio::sync::mpsc::error::SendError<T>);

/// The number of slots that the channel behind `sender` was made with: what
/// `Sender::max_capacity` reports of it, which never changes.
pub uninterp spec fn capacity_of(sender: Sender<u32>) -> usize;

/// Calls `tokio::sync::mpsc::channel`, which panics on a capacity of zero
/// and on one above `usize::MAX >> 3`, and takes every other. The sender
/// that it returns reports the capacity that was asked for as its maximum,
/// for as long as the channel lives.
#[verifier::external_body]
fn bounded(capacity: usize) -> (ends: (Sender<u32>, Receiver<u32>))
    requires
        capacity_ok(capacity),
    ensures
        capacity_of(ends.0) == capacity,
{
    tokio::sync::mpsc::channel(capacity)
}

/// Makes the hand-off channel of an engine of the given sizes: the end that
/// the fast context sends on, and the end that the background context
/// receives on.
pub fn handoff_channel(sizing: &Sizing) -> (ends: (Sender<u32>, Receiver<u32>))
    ensures
        capacity_of(ends.0) == sizing@.2,
{
    bounded(sizing.channel_capacity())
}

impl<T> From<SendError<T>> for HandlerError {
    /// A token that the channel gave back was not dispatched.
    fn from(_value: SendError<T>) -> (error: HandlerError) {
        HandlerError::Dispatch
    }
}

impl<T> FromSpecImpl<SendError<T>> for HandlerError {
    open spec fn obeys_from_spec() -> bool {
        true
    }

    open spec fn from_spec(_value: SendError<T>) -> HandlerError {
        HandlerError::Dispatch
    }
}

} // verus!
