//! Channels of the standard library.
//!
//! What sending and receiving return depends on what other threads do with the
//! other end of the channel, so nothing is said of those results.

use std::{
    sync::mpsc::{Receiver, RecvTimeoutError, Sender, TryRecvError},
    time::Duration,
};

use vstd::prelude::*;

verus! {

/// Sending end of a channel, which is `std::sync::mpsc::Sender`.
#[verifier::external_type_specification]
#[verifier::external_body]
#[verifier::reject_recursive_types(T)]
pub struct ExSender<T>(Sender<T>);

/// Receiving end of a channel, which is `std::sync::mpsc::Receiver`.
#[verifier::external_type_specification]
#[verifier::external_body]
#[verifier::reject_recursive_types(T)]
pub struct ExReceiver<T>(Receiver<T>);

/// `std::sync::mpsc::channel` makes the two ends of a new channel. Nothing is said
/// of the ends here. `are_ends` tells that two ends came from one call.
pub assume_specification<T>[ std::sync::mpsc::channel::<T> ]() -> (Sender<T>, Receiver<T>)
;

/// Are these the two ends of one channel, made by one call of
/// `std::sync::mpsc::channel`.
pub open spec fn are_ends<T>(sender: Sender<T>, receiver: Receiver<T>) -> bool {
    call_ensures(std::sync::mpsc::channel::<T>, (), (sender, receiver))
}

/// Why nothing was received.
#[derive(Debug, Clone, Copy, PartialEq, Eq, Structural)]
pub enum ReceiveError {
    /// There is no message, or none came before the timeout passed.
    Empty,
    /// Sending ends are gone and all messages are received.
    Disconnected,
}

/// Another sending end, from `std::sync::mpsc::Sender::clone`. A sending end stands
/// for the channel which it sends to. The clone sends to the same channel, so the
/// two are equal.
#[verifier::external_body]
pub(crate) fn clone_sender<T>(sender: &Sender<T>) -> (other: Sender<T>)
    ensures
        other == *sender,
{
    sender.clone()
}

/// Send a message with `std::sync::mpsc::Sender::send`. Returns false if the
/// receiving end is gone, which only the thread that has it decides.
#[verifier::external_body]
pub(crate) fn send<T>(sender: &Sender<T>, message: T) -> bool {
    sender.send(message).is_ok()
}

/// Wait for a message with `std::sync::mpsc::Receiver::recv`. Returns `None` if
/// sending ends are gone and all messages are received.
#[verifier::external_body]
pub(crate) fn recv<T>(receiver: &Receiver<T>) -> Option<T> {
    receiver.recv().ok()
}

/// Receive a message without waiting with `std::sync::mpsc::Receiver::try_recv`.
#[verifier::external_body]
pub(crate) fn try_recv<T>(receiver: &Receiver<T>) -> Result<T, ReceiveError> {
    receiver.try_recv().map_err(
        |e|
            match e {
                TryRecvError::Empty => ReceiveError::Empty,
                TryRecvError::Disconnected => ReceiveError::Disconnected,
            },
    )
}

/// Wait for a message at most for the timeout with
/// `std::sync::mpsc::Receiver::recv_timeout`.
#[verifier::external_body]
pub(crate) fn recv_timeout<T>(receiver: &Receiver<T>, timeout: Duration) -> Result<T, ReceiveError> {
    receiver.recv_timeout(timeout).map_err(
        |e|
            match e {
                RecvTimeoutError::Timeout => ReceiveError::Empty,
                RecvTimeoutError::Disconnected => ReceiveError::Disconnected,
            },
    )
}

} // verus!
