//! One-way, non-blocking message passing between the control and render roles.
//!
//! What a channel holds depends on the other thread, so these wrappers state
//! nothing about the values that come back: the verified code that calls them
//! is correct for every outcome.
use std::sync::mpsc::{Receiver, Sender};
use vstd::prelude::*;

verus! {

#[verifier::external_type_specification]
#[verifier::external_body]
#[verifier::reject_recursive_types(T)]
pub struct ExSender<T>(Sender<T>);

#[verifier::external_type_specification]
#[verifier::external_body]
#[verifier::reject_recursive_types(T)]
pub struct ExReceiver<T>(Receiver<T>);

/// Relies on `std::sync::mpsc::channel`: an unbounded FIFO queue, split into
/// its sending and receiving halves.
#[verifier::external_body]
pub(crate) fn open_channel<T>() -> (Sender<T>, Receiver<T>) {
    std::sync::mpsc::channel()
}

/// Relies on `Sender::send`, which never blocks; `false` when the receiving
/// half has been dropped.
#[verifier::external_body]
pub(crate) fn send_to<T>(tx: &Sender<T>, value: T) -> (sent: bool) {
    tx.send(value).is_ok()
}

/// Relies on `Receiver::try_iter`: every value pending right now, in the
/// order it was sent, without blocking.
#[verifier::external_body]
pub(crate) fn drain_pending<T>(rx: &Receiver<T>) -> (pending: Vec<T>) {
    rx.try_iter().collect()
}

} // verus!
