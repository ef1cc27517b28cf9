//! The two outside crates that the scheduler stands on, as far as the
//! verifier is told of them: flume's unbounded channel, which carries the
//! runnables, and async-task, which turns a future into a runnable and a
//! task handle. Nothing here is proved; each item says what is taken on
//! trust. None of the calls made here waits.

use async_task::{Runnable, Task};
use flume::{Receiver, Sender, TryRecvError, TrySendError};
use std::future::Future;
use vstd::prelude::*;

verus! {

/// `flume::Sender`: the sending end of a channel, opaque to the verifier.
#[verifier::external_type_specification]
#[verifier::external_body]
#[verifier::reject_recursive_types(T)]
pub struct ExSender<T>(Sender<T>);

/// `flume::Receiver`: the receiving end of a channel, opaque to the verifier.
#[verifier::external_type_specification]
#[verifier::external_body]
#[verifier::reject_recursive_types(T)]
pub struct ExReceiver<T>(Receiver<T>);

/// `flume::TrySendError`: why a channel did not take a message, with the
/// message.
#[verifier::external_type_specification]
#[verifier::reject_recursive_types(T)]
pub struct ExTrySendError<T>(TrySendError<T>);

/// `flume::TryRecvError`: why a non-blocking receive came back empty-handed.
#[verifier::external_type_specification]
pub struct ExTryRecvError(TryRecvError);

/// `async_task::Runnable`: a task that is ready to be polled once more,
/// opaque to the verifier.
#[verifier::external_type_specification]
#[verifier::external_body]
#[verifier::reject_recursive_types(M)]
pub struct ExRunnable<M>(Runnable<M>);

/// `async_task::Task`: the handle on which a task's output is awaited,
/// opaque to the verifier.
#[verifier::external_type_specification]
#[verifier::external_body]
#[verifier::reject_recursive_types(T)]
#[verifier::reject_recursive_types(M)]
pub struct ExTask<T, M>(Task<T, M>);

/// `receiver` is a receiving end of the channel that `sender` sends on. The
/// two ends of a channel are fixed when the channel is made, and a clone of
/// an end is an end of the same channel.
pub uninterp spec fn feeds(sender: Sender<Runnable>, receiver: Receiver<Runnable>) -> bool;

/// The channel that `sender` sends on was made without a limit on the number
/// of messages it holds.
pub uninterp spec fn unbounded(sender: Sender<Runnable>) -> bool;

/// `flume::unbounded` makes a channel without a capacity limit and gives its
/// two ends: what is sent on the first is received on the second.
#[verifier::external_body]
pub(crate) fn open_queue() -> (ends: (Sender<Runnable>, Receiver<Runnable>))
    ensures
        feeds(ends.0, ends.1),
        unbounded(ends.0),
{
    flume::unbounded::<Runnable>()
}

/// `flume::Sender::try_send` offers a message to the channel and never
/// waits. When the channel does not take the message, the error carries the
/// message that was given. The error is `Full` only on a channel that was
/// made with a limit. It is `Disconnected` only when every receiving end of
/// the channel is gone: a caller that holds one, and hands it in as `open`
/// for the time of the call, never meets that error. The receiving end is
/// held, not used.
#[verifier::external_body]
pub(crate) fn offer(
    queue: &Sender<Runnable>,
    open: Option<&Receiver<Runnable>>,
    runnable: Runnable,
) -> (sent: Result<(), TrySendError<Runnable>>)
    requires
        open matches Some(receiver) ==> feeds(*queue, *receiver),
    ensures
        sent matches Err(TrySendError::Full(back)) ==> back == runnable && !unbounded(*queue),
        sent matches Err(TrySendError::Disconnected(back)) ==> back == runnable && open is None,
{
    let _ = open;
    queue.try_send(runnable)
}

/// `flume::Receiver::try_recv` takes the message at the head of the channel
/// without waiting. Nothing is claimed of which outcome a call has.
pub assume_specification<T>[ Receiver::<T>::try_recv ](rx: &Receiver<T>) -> (got: Result<
    T,
    TryRecvError,
>)
;

/// `Clone::clone` of `flume::Sender`: the clone is one more handle on the
/// same channel, equal to the one it was made from.
pub assume_specification<T>[ <Sender<T> as Clone>::clone ](tx: &Sender<T>) -> (twin: Sender<T>)
    ensures
        twin == *tx,
;

/// `Clone::clone` of `flume::Receiver`: the clone is one more handle on the
/// same channel, equal to the one it was made from.
pub assume_specification<T>[ <Receiver<T> as Clone>::clone ](rx: &Receiver<T>) -> (twin: Receiver<
    T,
>)
    ensures
        twin == *rx,
;

/// `async_task::spawn` turns `future` into a task: a runnable that polls it
/// and a handle on which its output is awaited. Whenever the task is woken,
/// async-task hands its runnable to the closure given here, which is one
/// call of [`crate::scheduler::requeue`] on `queue`. Nothing is claimed of
/// the pair that comes back.
#[verifier::external_body]
pub(crate) fn wrap<F, T>(future: F, queue: Sender<Runnable>) -> (pair: (Runnable, Task<T>))
    where
        F: Future<Output = T> + Send + 'static,
        T: Send + 'static,
{
    async_task::spawn(future, move |runnable| crate::scheduler::requeue(&queue, runnable))
}

} // verus!
