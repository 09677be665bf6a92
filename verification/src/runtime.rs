//! What the crate takes from the `futures` crate: the bounded queue on which
//! wake handles are submitted, and the task handles themselves.
//!
//! Every contract here is taken on trust. The queue and the task cells are
//! shared between threads, so none of the contracts says what a call finds or
//! leaves there.
use futures::sync::mpsc::Receiver;
use futures::sync::mpsc::Sender;
use futures::sync::mpsc::TrySendError;
use futures::task::AtomicTask;
use futures::task::Task;
use futures::Async;
use futures::Future;
use futures::Stream;
use vstd::prelude::*;

verus! {

/// `futures::sync::mpsc::Sender`, carried as an opaque value.
#[verifier::external_type_specification]
#[verifier::external_body]
#[verifier::reject_recursive_types(T)]
pub struct ExSender<T>(Sender<T>);

/// `futures::sync::mpsc::Receiver`, carried as an opaque value.
#[verifier::external_type_specification]
#[verifier::external_body]
#[verifier::reject_recursive_types(T)]
pub struct ExReceiver<T>(Receiver<T>);

/// `futures::sync::mpsc::TrySendError`, carried as an opaque value.
#[verifier::external_type_specification]
#[verifier::external_body]
#[verifier::reject_recursive_types(T)]
pub struct ExTrySendError<T>(TrySendError<T>);

/// `futures::task::AtomicTask`, carried as an opaque value.
#[verifier::external_type_specification]
#[verifier::external_body]
pub struct ExAtomicTask(AtomicTask);

/// `futures::task::Task`, carried as an opaque value.
#[verifier::external_type_specification]
#[verifier::external_body]
pub struct ExTask(Task);

/// `futures::sync::mpsc::channel`: the two ends of a new bounded queue. The
/// call panics unless `buffer` is under a quarter of the largest `usize`.
#[verifier::external_body]
pub(crate) fn bounded_queue<T>(buffer: usize) -> (ends: (Sender<T>, Receiver<T>))
    requires
        buffer < usize::MAX / 4,
{
    futures::sync::mpsc::channel(buffer)
}

/// `Clone` of a `Sender`, then `Sender::try_send` of `msg` on the new end: the
/// new end, and `None` if the message is on the queue, else whether
/// `TrySendError::is_full` holds of the refusal. Each sending end has one place
/// of its own on the queue beside the shared ones, and an end that has sent
/// nothing has not used it: its first message is never refused for want of
/// room, only where the receiving end is gone. `Clone` panics once about half
/// of the largest `usize` of ends exist at a time, which is more than fit in
/// memory.
#[verifier::external_body]
pub(crate) fn send_on_new_end<T>(sender: &Sender<T>, msg: T) -> (sent: (Sender<T>, Option<bool>))
    ensures
        sent.1 != Some(true),
{
    let mut end = sender.clone();
    let refusal = match end.try_send(msg) {
        Ok(()) => None,
        Err(refusal) => Some(refusal.is_full()),
    };
    (end, refusal)
}

/// `Sender::try_send`: puts `msg` on the queue without waiting, or refuses
/// it. For an end that has sent before, whether it is refused depends on what
/// is queued and on whether the receiving end is still there.
pub assume_specification<T>[ Sender::<T>::try_send ](sender: &mut Sender<T>, msg: T) -> (sent:
    Result<(), TrySendError<T>>)
;

/// `TrySendError::is_full`: whether the message was refused for want of room,
/// and not because the receiving end is gone.
pub assume_specification<T>[ TrySendError::<T>::is_full ](refusal: &TrySendError<T>) -> (full: bool)
;

/// `AtomicTask::new`: a cell that holds no task yet.
pub assume_specification[ AtomicTask::new ]() -> (cell: AtomicTask)
;

/// `AtomicTask::register_task`: puts `task` in the cell, in place of any task
/// that was there; the next `notify` wakes it.
pub assume_specification[ AtomicTask::register_task ](cell: &AtomicTask, task: Task)
;

/// `AtomicTask::notify`: takes the task out of the cell, if one is there, and
/// wakes it.
pub assume_specification[ AtomicTask::notify ](cell: &AtomicTask)
;

/// One `Stream::poll` of the receiving end, made on a task of its own
/// (`future::lazy` run by `Future::wait`), so that it may be called from
/// anywhere: takes the oldest message off the queue if there is one. An empty
/// queue and one whose senders are all gone both give `None`; the call never
/// waits for a message.
#[verifier::external_body]
pub(crate) fn poll_once<T>(receiver: &mut Receiver<T>) -> (next: Option<T>) {
    match futures::future::lazy(|| receiver.poll()).wait() {
        Ok(Async::Ready(Some(message))) => Some(message),
        Ok(Async::Ready(None)) => None,
        Ok(Async::NotReady) => None,
        Err(()) => None,
    }
}

} // verus!
