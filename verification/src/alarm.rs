//! The alarm registry: who is to be woken when something is published.
//!
//! A [`Waker`] keeps the list of wake handles that a publish notifies. A
//! [`Sleeper`] is one consumer's side: its own handle, and a sending end of the
//! bounded queue on which new handles reach the waker. The list only grows:
//! the handle of a consumer that is gone stays on it and is notified to no
//! effect.
//!
//! Notifying and arming act on cells that are shared between threads, where no
//! contract can follow them. Each side therefore keeps a ghost record of what
//! it did, written next to the call that does it, and the contracts speak of
//! the record.
use crate::runtime::bounded_queue;
use crate::runtime::poll_once;
use crate::runtime::send_on_new_end;
use crate::sync::share;
use futures::sync::mpsc::Receiver;
use futures::sync::mpsc::Sender;
use futures::task::AtomicTask;
use futures::task::Task;
use std::sync::Arc;
use vstd::prelude::*;

verus! {

/// How many submitted handles the registration queue holds beyond the one
/// that each sending end may always leave there.
pub const REGISTRATION_SLOTS: usize = 10;

/// A wake handle could not be submitted: the registration queue is full.
#[derive(Debug, Clone, Copy, PartialEq, Eq)]
pub struct RegistrationQueueFull;

/// What became of a handle that was submitted for registration.
#[derive(Debug, Clone, Copy, PartialEq, Eq)]
pub enum Submission {
    /// It is on the queue and will be on the waker's list after its next drain.
    Queued,
    /// The queue had no room for it.
    Full,
    /// The waker is gone, so nobody is left who would wake anyone.
    Unclaimed,
}

impl Submission {
    /// What became of a handle, read off what the queue answered: `None` if
    /// it took the handle, else whether it refused for want of room.
    pub open spec fn read(refusal: Option<bool>) -> Submission {
        match refusal {
            None => Submission::Queued,
            Some(true) => Submission::Full,
            Some(false) => Submission::Unclaimed,
        }
    }

    /// Reads the outcome off what the queue answered: `None` if it took the
    /// handle, else whether it refused for want of room.
    pub fn of(refusal: Option<bool>) -> (outcome: Submission)
        ensures
            outcome == Submission::read(refusal),
    {
        match refusal {
            None => Submission::Queued,
            Some(true) => Submission::Full,
            Some(false) => Submission::Unclaimed,
        }
    }

    /// Whether the consumer may go on. Only a full queue stops it: there the
    /// handle would silently miss its wake-ups. Where the waker is gone there
    /// is nothing to miss.
    pub open spec fn may_proceed(self) -> bool {
        self != Submission::Full
    }

    /// `Ok` where the consumer may go on, the error where it may not.
    pub fn verdict(self) -> (verdict: Result<(), RegistrationQueueFull>)
        ensures
            verdict is Ok <==> self.may_proceed(),
    {
        match self {
            Submission::Queued => Ok(()),
            Submission::Full => Err(RegistrationQueueFull),
            Submission::Unclaimed => Ok(()),
        }
    }
}

/// The model of a waker: its list, and the notifications it has made.
pub struct WakerView<H> {
    /// The handles that a publish notifies, in the order in which they came.
    pub active: Seq<H>,
    /// Every notification made so far, oldest first.
    pub notified: Seq<H>,
}

impl<H> WakerView<H> {
    /// The waker after the handles of `batch` joined the list.
    pub open spec fn enrolled(self, batch: Seq<H>) -> Self {
        WakerView { active: self.active + batch, ..self }
    }

    /// The waker after it notified its whole list once.
    pub open spec fn woken(self) -> Self {
        WakerView { notified: self.notified + self.active, ..self }
    }
}

/// The publishing side of the registry: the handles to notify, and the
/// receiving end of the registration queue.
#[verifier::reject_recursive_types(T)]
pub struct Waker<T> {
    /// The handles that a publish notifies, in the order in which they came.
    pub sleepers: Vec<Arc<T>>,
    receiver: Receiver<Arc<T>>,
    notified: Ghost<Seq<Arc<T>>>,
}

/// A consumer's side of the registry.
#[verifier::reject_recursive_types(T)]
pub struct Sleeper<T> {
    /// The handle by which this consumer is woken.
    pub sleeper: Arc<T>,
    /// A sending end of the registration queue.
    pub sender: Sender<Arc<T>>,
    armed: Ghost<Option<Task>>,
}

/// A registry whose list holds one handle, that of `current`, together with
/// the sleeper that owns this handle. Nothing was notified or armed yet.
pub fn alarm<T>(current: T) -> (pair: (Waker<T>, Sleeper<T>))
    ensures
        pair.0@.active.len() == 1,
        *pair.0@.active[0] == current,
        pair.0@.notified.len() == 0,
        *pair.1.handle() == current,
        pair.1.armed() is None,
{
    let mut sleepers = Vec::new();
    let (sender, receiver) = bounded_queue(REGISTRATION_SLOTS);
    let handle = Arc::new(current);
    sleepers.push(share(&handle));
    (
        Waker { sleepers, receiver, notified: Ghost(Seq::empty()) },
        Sleeper { sleeper: handle, sender, armed: Ghost(None) },
    )
}

impl<T> View for Waker<T> {
    type V = WakerView<Arc<T>>;

    closed spec fn view(&self) -> WakerView<Arc<T>> {
        WakerView { active: self.sleepers@, notified: self.notified@ }
    }
}

impl<T> Waker<T> {
    /// Puts `handle` at the end of the list.
    pub fn enroll(&mut self, handle: Arc<T>)
        ensures
            final(self)@ == old(self)@.enrolled(seq![handle]),
    {
        self.sleepers.push(handle);
        assert(self@.active =~= old(self)@.enrolled(seq![handle]).active);
    }

    /// Moves every handle that is on the registration queue to the end of the
    /// list, oldest first, without waiting for more. No handle leaves the list
    /// and none changes its place; nobody is notified.
    pub fn register_receivers(&mut self)
        ensures
            old(self)@.active.is_prefix_of(final(self)@.active),
            final(self)@ == old(self)@.enrolled(
                final(self)@.active.skip(old(self)@.active.len() as int),
            ),
    {
        while self.sleepers.len() < usize::MAX
            invariant
                old(self)@.active.is_prefix_of(self@.active),
                self@.notified == old(self)@.notified,
            decreases usize::MAX - self.sleepers.len(),
        {
            match poll_once(&mut self.receiver) {
                Some(handle) => {
                    self.enroll(handle);
                },
                None => {
                    break ;
                },
            }
        }
        assert(self@.active =~= old(self)@.active + self@.active.skip(old(self)@.active.len() as int));
    }
}

impl Waker<AtomicTask> {
    /// Notifies every handle on the list, each once, in the order of the
    /// list. A handle that holds no task takes the notification to no effect.
    pub fn wake_all(&mut self)
        ensures
            final(self)@ == old(self)@.woken(),
    {
        let mut at: usize = 0;
        while at < self.sleepers.len()
            invariant
                at <= self.sleepers@.len(),
                self@.active == old(self)@.active,
                self@.notified == old(self)@.notified + self@.active.take(at as int),
            decreases self.sleepers@.len() - at,
        {
            self.sleepers[at].notify();
            proof {
                self.notified@ = self.notified@.push(self.sleepers@[at as int]);
                assert(self@.active.take(at + 1) =~= self@.active.take(at as int).push(
                    self@.active[at as int],
                ));
            }
            at += 1;
        }
        assert(self@.active.take(at as int) =~= self@.active);
    }
}

impl<T> Sleeper<T> {
    /// The handle by which this consumer is woken.
    pub closed spec fn handle(&self) -> Arc<T> {
        self.sleeper
    }

    /// The task for which the handle was armed last, if it ever was.
    pub closed spec fn armed(&self) -> Option<Task> {
        self.armed@
    }

    /// Submits `handle` on this sleeper's sending end and says what became of
    /// it, as [`Submission::of`] reads it off the queue's answer. The queue
    /// decides; this sleeper's own handle and arming stay as they are.
    pub fn submit(&mut self, handle: Arc<T>) -> (outcome: Submission)
        ensures
            final(self).handle() == old(self).handle(),
            final(self).armed() == old(self).armed(),
    {
        let refusal = match self.sender.try_send(handle) {
            Ok(()) => None,
            Err(refusal) => Some(refusal.is_full()),
        };
        Submission::of(refusal)
    }

    /// A sleeper for one more consumer: mints a handle for `current` and
    /// submits it on a new sending end, which the sleeper keeps. A new end has
    /// a place of its own on the queue, so the handle is never refused for
    /// want of room and the sleeper is always made; where the waker is gone,
    /// the handle goes unclaimed and nobody is left to miss. The error is
    /// there for a queue that could refuse.
    pub fn enlist(&self, current: T) -> (enlisted: Result<Sleeper<T>, RegistrationQueueFull>)
        ensures
            enlisted matches Ok(sleeper) && *sleeper.handle() == current && sleeper.armed() is None,
    {
        let handle = Arc::new(current);
        let (sender, refusal) = send_on_new_end(&self.sender, share(&handle));
        let sleeper = Sleeper { sleeper: handle, sender, armed: Ghost(None) };
        match Submission::of(refusal).verdict() {
            Ok(()) => Ok(sleeper),
            Err(full) => Err(full),
        }
    }
}

impl Sleeper<AtomicTask> {
    /// Arms the handle: the next notification of it wakes `task`.
    pub fn arm(&mut self, task: Task)
        ensures
            final(self).armed() == Some(task),
            final(self).handle() == old(self).handle(),
    {
        proof {
            self.armed@ = Some(task);
        }
        self.sleeper.register_task(task);
    }
}

} // verus!
