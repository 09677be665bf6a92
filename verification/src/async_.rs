//! The channel for consumers that run as tasks: a [`Subscriber`] with nothing
//! to read arms its wake handle and steps aside, and each accepted publish
//! notifies every handle that the registry knows.
pub use crate::alarm::alarm;
use crate::alarm::RegistrationQueueFull;
pub use crate::alarm::Sleeper;
pub use crate::alarm::Waker;
use crate::alarm::WakerView;
use crate::bare::bare_channel;
use crate::bare::BarePublisher;
use crate::bare::BareSubscriber;
use crate::topic::SendError;
use crate::topic::TryRecvError;
use futures::task::AtomicTask;
use futures::task::Task;
use std::sync::Arc;
use vstd::prelude::*;
use vstd::std_specs::cmp::PartialEqSpecImpl;

verus! {

/// Whether a value is there yet.
#[derive(Debug, PartialEq, Eq)]
pub enum Async<T> {
    /// It is there.
    Ready(T),
    /// It is not; the caller will be woken when asking again is worthwhile.
    NotReady,
}

/// Whether a sink took an item.
#[derive(Debug, PartialEq, Eq)]
pub enum AsyncSink<T> {
    /// The item was taken.
    Ready,
    /// The sink had no room; the item comes back.
    NotReady(T),
}

/// Where a subscriber stands.
#[derive(Debug, Clone, Copy, PartialEq, Eq)]
pub enum Phase {
    /// Its last poll handed out an item, or it was not polled yet.
    Active,
    /// Its last poll found nothing and armed its wake handle.
    Suspended,
    /// It has reported the end of the sequence. Nothing leads out of here.
    Terminated,
}

impl Phase {
    /// The phase of a subscriber whose cursor just gave `got`.
    pub open spec fn after<T>(got: Result<Arc<T>, TryRecvError>) -> Phase {
        match got {
            Ok(_) => Phase::Active,
            Err(TryRecvError::Empty) => Phase::Suspended,
            Err(TryRecvError::Disconnected) => Phase::Terminated,
        }
    }

    /// The phase that goes with what a poll reported.
    pub open spec fn of<T>(polled: Async<Option<Arc<T>>>) -> Phase {
        match polled {
            Async::Ready(Some(_)) => Phase::Active,
            Async::NotReady => Phase::Suspended,
            Async::Ready(None) => Phase::Terminated,
        }
    }
}

/// What a poll reports when the subscriber's cursor gave `got`: the item, or
/// "not ready" for an empty cursor, or the end of the sequence once the
/// publisher is gone.
pub open spec fn report<T>(got: Result<Arc<T>, TryRecvError>) -> Async<Option<Arc<T>>> {
    match got {
        Ok(item) => Async::Ready(Some(item)),
        Err(TryRecvError::Empty) => Async::NotReady,
        Err(TryRecvError::Disconnected) => Async::Ready(None),
    }
}

/// Decides a poll from what the cursor gave: what to report and the phase to
/// enter. The wake handle is to be armed exactly where the phase is
/// `Suspended`.
pub fn react<T>(got: Result<Arc<T>, TryRecvError>) -> (decided: (Async<Option<Arc<T>>>, Phase))
    ensures
        decided.0 == report(got),
        decided.1 == Phase::after(got),
        decided.1 == Phase::of(decided.0),
{
    match got {
        Ok(item) => (Async::Ready(Some(item)), Phase::Active),
        Err(TryRecvError::Empty) => (Async::NotReady, Phase::Suspended),
        Err(TryRecvError::Disconnected) => (Async::Ready(None), Phase::Terminated),
    }
}

/// The publishing end of a channel.
#[verifier::reject_recursive_types(T)]
pub struct Publisher<T: Send> {
    bare_publisher: BarePublisher<T>,
    waker: Waker<AtomicTask>,
}

/// A subscribing end of a channel.
#[verifier::reject_recursive_types(T)]
pub struct Subscriber<T: Send> {
    bare_subscriber: BareSubscriber<T>,
    sleeper: Sleeper<AtomicTask>,
    phase: Phase,
}

/// A channel whose subscribers may each leave up to `size` items unread: its
/// publisher and a first subscriber, whose wake handle is the one handle on
/// the publisher's list.
pub fn channel<T: Send>(size: usize) -> (ends: (Publisher<T>, Subscriber<T>))
    requires
        size > 0,
    ensures
        ends.0@.active.len() == 1,
        ends.0@.active[0] == ends.1.handle(),
        ends.0@.notified.len() == 0,
        ends.1.phase() == Phase::Active,
        ends.1.armed() is None,
        ends.1.cursor() == 0,
{
    let (bare_publisher, bare_subscriber) = bare_channel(size);
    let (waker, sleeper) = alarm(AtomicTask::new());
    (
        Publisher { bare_publisher, waker },
        Subscriber { bare_subscriber, sleeper, phase: Phase::Active },
    )
}

impl<T: Send> View for Publisher<T> {
    type V = WakerView<Arc<AtomicTask>>;

    /// The publisher's registry: its list of wake handles and the
    /// notifications it has made.
    closed spec fn view(&self) -> WakerView<Arc<AtomicTask>> {
        self.waker@
    }
}

impl<T: Send> Publisher<T> {
    /// Notifies every handle on the list, each once.
    fn wake_all(&mut self)
        ensures
            final(self)@ == old(self)@.woken(),
    {
        self.waker.wake_all();
    }

    /// How many subscribers the channel has right now.
    pub fn get_sub_count(&self) -> (count: usize) {
        self.bare_publisher.get_sub_count()
    }

    /// Ends a publish of which the channel said `sent`. An accepted item has
    /// every handle on the list notified and is answered with `Ready`; a
    /// refusal is handed on as it is, and nobody is notified.
    pub fn conclude(&mut self, sent: Result<(), SendError<T>>) -> (started: Result<
        AsyncSink<T>,
        SendError<T>,
    >)
        ensures
            sent is Ok ==> started == Ok::<AsyncSink<T>, SendError<T>>(AsyncSink::Ready)
                && final(self)@ == old(self)@.woken(),
            sent matches Err(refused) ==> started == Err::<AsyncSink<T>, SendError<T>>(refused)
                && final(self)@ == old(self)@,
    {
        match sent {
            Ok(()) => {
                self.wake_all();
                Ok(AsyncSink::Ready)
            },
            Err(refused) => Err(refused),
        }
    }

    /// Publishes `item`. First every handle that waits on the registration
    /// queue joins the list; then the item is broadcast, and
    /// [`conclude`](Self::conclude) does the rest: if the channel takes the
    /// item, every handle on the list is notified, the new ones too, and the
    /// answer is `Ready`; if not, nobody is notified and the item comes back
    /// in the error. The channel decides as [`Topic::broadcast`] says.
    ///
    /// [`Topic::broadcast`]: crate::topic::Topic::broadcast
    pub fn start_send(&mut self, item: T) -> (started: Result<AsyncSink<T>, SendError<T>>)
        ensures
            old(self)@.active.is_prefix_of(final(self)@.active),
            started is Ok ==> started == Ok::<AsyncSink<T>, SendError<T>>(AsyncSink::Ready)
                && final(self)@.notified == old(self)@.notified + final(self)@.active,
            started is Err ==> started == Err::<AsyncSink<T>, SendError<T>>(SendError(item))
                && final(self)@.notified == old(self)@.notified,
    {
        self.waker.register_receivers();
        let sent = self.bare_publisher.broadcast(item);
        self.conclude(sent)
    }

    /// Flushes. The publisher buffers nothing of its own, so this is always
    /// done at once and changes nothing.
    pub fn poll_complete(&mut self) -> (done: Result<Async<()>, SendError<T>>)
        ensures
            done == Ok::<Async<()>, SendError<T>>(Async::Ready(())),
            *final(self) == *old(self),
        opens_invariants none
        no_unwind
    {
        Ok(Async::Ready(()))
    }

    /// Closes, which is to flush: done at once, as often as it is called.
    pub fn close(&mut self) -> (done: Result<Async<()>, SendError<T>>)
        ensures
            done == Ok::<Async<()>, SendError<T>>(Async::Ready(())),
            *final(self) == *old(self),
        opens_invariants none
        no_unwind
    {
        self.poll_complete()
    }
}

impl<T: Send> PartialEq for Publisher<T> {
    /// Whether `other` is the publisher of the same channel.
    fn eq(&self, other: &Publisher<T>) -> (same: bool) {
        self.bare_publisher == other.bare_publisher
    }
}

impl<T: Send> PartialEqSpecImpl for Publisher<T> {
    /// Sameness is a matter of addresses; contracts learn nothing from `==`.
    open spec fn obeys_eq_spec() -> bool {
        false
    }

    open spec fn eq_spec(&self, other: &Publisher<T>) -> bool {
        true
    }
}

impl<T: Send> Eq for Publisher<T> {}

impl<T: Send> Drop for Publisher<T> {
    /// Closes the publisher; the close cannot fail. The bare publishing end
    /// goes with it, which is what the subscribers see as the end.
    fn drop(&mut self)
        opens_invariants none
        no_unwind
    {
        let done = self.close();
        assert(done is Ok);
    }
}

impl<T: Send> Subscriber<T> {
    /// Where the subscriber stands.
    pub closed spec fn phase(&self) -> Phase {
        self.phase
    }

    /// The handle by which the subscriber is woken.
    pub closed spec fn handle(&self) -> Arc<AtomicTask> {
        self.sleeper.handle()
    }

    /// The task for which the handle was armed last, if it ever was.
    pub closed spec fn armed(&self) -> Option<Task> {
        self.sleeper.armed()
    }

    /// The number of the subscriber's cursor.
    pub closed spec fn cursor(&self) -> nat {
        self.bare_subscriber.cursor()
    }

    /// Asks for the next item on behalf of `task`. A subscriber that has
    /// terminated reports the end again and touches nothing. Otherwise the
    /// cursor is read once and [`react`] decides: an item is handed out; an
    /// empty cursor arms the wake handle with `task` and reports "not ready";
    /// a channel whose publisher is gone reports the end, for good.
    pub fn poll(&mut self, task: Task) -> (polled: Result<Async<Option<Arc<T>>>, ()>)
        ensures
            polled is Ok,
            final(self).phase() == Phase::of(polled->Ok_0),
            old(self).phase() == Phase::Terminated ==> polled == Ok::<Async<Option<Arc<T>>>, ()>(
                Async::Ready(None),
            ),
            final(self).armed() == if final(self).phase() == Phase::Suspended {
                Some(task)
            } else {
                old(self).armed()
            },
            final(self).handle() == old(self).handle(),
            final(self).cursor() == old(self).cursor(),
    {
        match self.phase {
            Phase::Terminated => {
                return Ok(Async::Ready(None));
            },
            _ => {},
        }
        let (report, phase) = react(self.bare_subscriber.try_recv());
        match phase {
            Phase::Suspended => {
                self.sleeper.arm(task);
            },
            _ => {},
        }
        self.phase = phase;
        Ok(report)
    }

    /// One more subscriber of the same channel, with a cursor of its own that
    /// starts with nothing unread, and a wake handle of its own, which is
    /// submitted for registration first. The submission is never refused (see
    /// [`Sleeper::enlist`]), so the subscriber is always made; the error is
    /// there for a registration queue that could refuse, and then no
    /// subscriber would be made.
    pub fn clone(&self) -> (copy: Result<Subscriber<T>, RegistrationQueueFull>)
        ensures
            copy matches Ok(subscriber) && subscriber.phase() == Phase::Active
                && subscriber.armed() is None,
    {
        let sleeper = match self.sleeper.enlist(AtomicTask::new()) {
            Ok(sleeper) => sleeper,
            Err(full) => {
                return Err(full);
            },
        };
        let bare_subscriber = self.bare_subscriber.clone();
        Ok(Subscriber { bare_subscriber, sleeper, phase: Phase::Active })
    }
}

impl<T: Send> PartialEq for Subscriber<T> {
    /// Whether `other` reads with the same cursor of the same channel. Where
    /// it stands and how it is woken do not count.
    fn eq(&self, other: &Subscriber<T>) -> (same: bool)
        ensures
            same ==> self.cursor() == other.cursor(),
    {
        self.bare_subscriber == other.bare_subscriber
    }
}

impl<T: Send> PartialEqSpecImpl for Subscriber<T> {
    /// Sameness is in part a matter of addresses; contracts learn from `==`
    /// only what `eq` itself ensures.
    open spec fn obeys_eq_spec() -> bool {
        false
    }

    open spec fn eq_spec(&self, other: &Subscriber<T>) -> bool {
        self.cursor() == other.cursor()
    }
}

impl<T: Send> Eq for Subscriber<T> {}

} // verus!
