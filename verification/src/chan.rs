//! The delivery channels of a round, supplied by crossbeam. A record's
//! channel is multi-producer/multi-consumer and is used send-once-per-recipient,
//! receive-once-per-recipient; the engine never relies on more than that.

use vstd::prelude::*;
use crossbeam::channel::Receiver;
use crossbeam::channel::Sender;

verus! {

/// crossbeam's sending half of a channel, declared so that values of it can
/// stand in verified code. Opaque: nothing of a channel's state is modelled,
/// since it is shared between threads.
#[verifier::external_type_specification]
#[verifier::external_body]
#[verifier::reject_recursive_types(T)]
pub struct ExSender<T>(Sender<T>);

/// crossbeam's receiving half of a channel, declared as [`ExSender`] is.
#[verifier::external_type_specification]
#[verifier::external_body]
#[verifier::reject_recursive_types(T)]
pub struct ExReceiver<T>(Receiver<T>);

/// Relies on crossbeam::channel::unbounded: a connected pair whose buffer is
/// never full, so sending on it never blocks.
#[verifier::external_body]
pub(crate) fn channel_unbounded<M>() -> (p: (Sender<M>, Receiver<M>)) {
    crossbeam::channel::unbounded()
}

/// Relies on crossbeam::channel::bounded with capacity one: a connected pair
/// able to hold the single outcome of a round.
#[verifier::external_body]
pub(crate) fn channel_bounded_one<M>() -> (p: (Sender<M>, Receiver<M>)) {
    crossbeam::channel::bounded(1)
}

/// Relies on crossbeam Sender::send: the message is delivered into the
/// channel unless every receiving half is gone, which the flag reports.
#[verifier::external_body]
pub(crate) fn channel_send<M>(tx: &Sender<M>, m: M) -> (ok: bool) {
    tx.send(m).is_ok()
}

/// Relies on crossbeam Receiver::recv: blocks until a message arrives and
/// hands it out, or returns nothing once the channel is disconnected and
/// empty. Which message arrives depends on the other threads, so nothing is
/// claimed of the value.
#[verifier::external_body]
pub(crate) fn channel_recv<M>(rx: &Receiver<M>) -> (m: Option<M>) {
    rx.recv().ok()
}

/// Relies on crossbeam Receiver::clone: a further receiving half of the same
/// channel, for one more recipient of the round.
#[verifier::external_body]
pub(crate) fn clone_receiver<M>(rx: &Receiver<M>) -> (c: Receiver<M>) {
    rx.clone()
}

} // verus!
