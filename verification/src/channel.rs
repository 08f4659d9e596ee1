//! Trusted declarations of the runtime primitives the core stores and polls:
//! bounded channels, task handles, and level-triggered notifiers. Everything
//! that suspends (awaited sends, socket I/O) stays with the embedding; the
//! core only creates channels, polls them without waiting, and aborts tasks.

use vstd::prelude::*;
use tokio::sync::mpsc::Receiver;
use tokio::sync::mpsc::Sender;
use tokio::task::JoinHandle;

verus! {

#[verifier::external_type_specification]
#[verifier::external_body]
#[verifier::reject_recursive_types(T)]
pub struct ExSender<T>(Sender<T>);

#[verifier::external_type_specification]
#[verifier::external_body]
#[verifier::reject_recursive_types(T)]
pub struct ExReceiver<T>(Receiver<T>);

#[verifier::external_type_specification]
#[verifier::external_body]
pub struct ExNotify(tokio::sync::Notify);

#[verifier::external_type_specification]
#[verifier::external_body]
#[verifier::reject_recursive_types(T)]
pub struct ExJoinHandle<T>(JoinHandle<T>);

#[verifier::external_type_specification]
#[verifier::external_body]
pub struct ExJoinError(tokio::task::JoinError);

/// What polling a channel without waiting can yield.
pub enum RecvPoll<T> {
    /// A queued value.
    Got(T),
    /// Nothing queued right now.
    Empty,
    /// Every sender is gone and the queue is drained.
    Disconnected,
}

/// Relies on `tokio::sync::mpsc::channel`: a bounded queue. It panics on a
/// zero capacity and on one beyond the runtime's permit limit; the
/// precondition excludes both.
#[verifier::external_body]
pub(crate) fn mpsc_channel<T>(cap: usize) -> (r: (Sender<T>, Receiver<T>))
    requires
        1 <= cap,
        cap <= 0x10000000,
{
    tokio::sync::mpsc::channel(cap)
}

/// Relies on `tokio::sync::mpsc::Receiver::try_recv`: polls without waiting.
/// The outcome depends on concurrent senders, so nothing is promised of it.
#[verifier::external_body]
pub(crate) fn try_recv_poll<T>(rx: &mut Receiver<T>) -> (r: RecvPoll<T>) {
    match rx.try_recv() {
        Ok(v) => RecvPoll::Got(v),
        Err(tokio::sync::mpsc::error::TryRecvError::Empty) => RecvPoll::Empty,
        Err(tokio::sync::mpsc::error::TryRecvError::Disconnected) => RecvPoll::Disconnected,
    }
}

/// Relies on `tokio::sync::mpsc::Sender::clone`: another sender to the same
/// queue.
#[verifier::external_body]
pub(crate) fn sender_clone<T>(tx: &Sender<T>) -> (r: Sender<T>) {
    tx.clone()
}

/// Relies on `tokio::sync::mpsc::Sender::try_send`: queues the value unless
/// the channel is full or closed; the outcome depends on concurrent activity.
#[verifier::external_body]
pub(crate) fn try_send_value<T>(tx: &Sender<T>, v: T) -> (r: bool) {
    tx.try_send(v).is_ok()
}

/// Relies on `tokio::task::JoinHandle::abort`: asks the task to stop at its
/// next suspension point.
#[verifier::external_body]
pub(crate) fn abort_task<T>(h: &JoinHandle<T>) {
    h.abort()
}

/// Relies on `tokio::task::JoinHandle::is_finished`: whether the task has run
/// to completion or was aborted already.
#[verifier::external_body]
pub(crate) fn task_is_finished<T>(h: &JoinHandle<T>) -> (r: bool) {
    h.is_finished()
}

} // verus!
