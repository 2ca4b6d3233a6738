//! The flash-message bus: an unbounded multi-producer, single-consumer
//! channel from the kanal crate. The channel itself is outside code taken
//! on trust; everything the library concludes from a received value is
//! proved in the consumers, which take the value as an argument.

use vstd::prelude::*;

verus! {

/// A send on the bus failed: the consuming side is gone. Treated as fatal
/// by the run loop, never swallowed.
#[derive(Clone, Copy, PartialEq, Eq, Structural, Debug)]
pub struct SendFailed;

#[verifier::external_type_specification]
#[verifier::external_body]
#[verifier::reject_recursive_types(T)]
pub struct ExSender<T>(kanal::Sender<T>);

#[verifier::external_type_specification]
#[verifier::external_body]
#[verifier::reject_recursive_types(T)]
pub struct ExReceiver<T>(kanal::Receiver<T>);

/// Relies on kanal::unbounded: a connected sender/receiver pair of a fresh
/// unbounded channel.
#[verifier::external_body]
pub(crate) fn unbounded_channel<T>() -> (kanal::Sender<T>, kanal::Receiver<T>) {
    kanal::unbounded()
}

/// Relies on kanal's Clone impl for Sender: the clone feeds the same
/// channel as the original.
#[verifier::external_body]
pub(crate) fn clone_sender<T>(tx: &kanal::Sender<T>) -> kanal::Sender<T> {
    tx.clone()
}

/// Relies on kanal::Sender::send: queues the value for the receiving side;
/// reports `false` when the channel is closed and the value was not taken.
#[verifier::external_body]
pub(crate) fn send_msg<T>(tx: &kanal::Sender<T>, value: T) -> bool {
    tx.send(value).is_ok()
}

/// Relies on kanal::Receiver::try_recv: takes one pending message without
/// blocking; yields nothing when the queue is empty or the channel closed.
#[verifier::external_body]
pub(crate) fn try_recv_msg<T>(rx: &kanal::Receiver<T>) -> Option<T> {
    match rx.try_recv() {
        Ok(Some(v)) => Some(v),
        Ok(None) => None,
        Err(_) => None,
    }
}

} // verus!
