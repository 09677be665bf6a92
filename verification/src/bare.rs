//! The two ends of a bare broadcast channel: handles to one [`Topic`] behind a
//! lock.
//!
//! The handles may sit on different threads, so between two calls on one
//! handle the topic may have changed under it. What a call on a handle does is
//! therefore stated by the operation of [`Topic`] that it performs on the
//! topic as it finds it; the handle's own contract states what holds whatever
//! it found.
use crate::sync::lock;
use crate::sync::locked;
use crate::sync::same_allocation;
use crate::sync::share;
use crate::topic::SendError;
use crate::topic::Topic;
use crate::topic::TryRecvError;
use std::sync::Arc;
use std::sync::Mutex;
use vstd::prelude::*;
use vstd::std_specs::cmp::PartialEqSpecImpl;

verus! {

/// The publishing end. There is one per channel; dropping it closes the topic.
#[verifier::reject_recursive_types(T)]
pub struct BarePublisher<T> {
    topic: Arc<Mutex<Topic<T>>>,
}

/// A subscribing end: one cursor of the topic. Dropping it detaches the cursor.
#[verifier::reject_recursive_types(T)]
pub struct BareSubscriber<T> {
    topic: Arc<Mutex<Topic<T>>>,
    cursor: usize,
}

/// A channel whose cursors may each leave up to `size` items unread, with its
/// publishing end and a first subscribing end, on cursor 0, that has nothing
/// unread.
pub fn bare_channel<T>(size: usize) -> (ends: (BarePublisher<T>, BareSubscriber<T>))
    requires
        size > 0,
    ensures
        ends.1.cursor() == 0,
{
    let mut topic = Topic::new(size);
    let ghost empty = topic@;
    let cursor = topic.subscribe();
    assert(cursor == 0) by {
        assert(!empty.attached(0));
    }
    let shared = Arc::new(Mutex::new(topic));
    let again = share(&shared);
    (BarePublisher { topic: shared }, BareSubscriber { topic: again, cursor })
}

impl<T> BarePublisher<T> {
    /// Performs [`Topic::broadcast`] on the topic as it is now. A refusal
    /// hands the item back.
    pub fn broadcast(&mut self, item: T) -> (sent: Result<(), SendError<T>>)
        ensures
            sent is Err ==> sent == Err::<(), SendError<T>>(SendError(item)),
    {
        let mut guard = lock(&self.topic);
        let topic = locked(&mut guard);
        topic.broadcast(item)
    }

    /// Performs [`Topic::get_sub_count`] on the topic as it is now.
    pub fn get_sub_count(&self) -> (count: usize) {
        let mut guard = lock(&self.topic);
        let topic = locked(&mut guard);
        topic.get_sub_count()
    }
}

impl<T> PartialEq for BarePublisher<T> {
    /// Whether `other` is the publishing end of the same channel.
    fn eq(&self, other: &BarePublisher<T>) -> (same: bool) {
        same_allocation(&self.topic, &other.topic)
    }
}

impl<T> PartialEqSpecImpl for BarePublisher<T> {
    /// Sameness is a matter of addresses; contracts learn nothing from `==`.
    open spec fn obeys_eq_spec() -> bool {
        false
    }

    open spec fn eq_spec(&self, other: &BarePublisher<T>) -> bool {
        true
    }
}

impl<T> Eq for BarePublisher<T> {}

impl<T> Drop for BarePublisher<T> {
    /// Performs [`Topic::close`].
    fn drop(&mut self)
        opens_invariants none
        no_unwind
    {
        let mut guard = lock(&self.topic);
        let topic = locked(&mut guard);
        topic.close();
    }
}

impl<T> BareSubscriber<T> {
    /// The number of this end's cursor.
    pub closed spec fn cursor(&self) -> nat {
        self.cursor as nat
    }

    /// Performs [`Topic::try_recv`] for this end's cursor on the topic as it
    /// is now.
    pub fn try_recv(&self) -> (got: Result<Arc<T>, TryRecvError>) {
        let mut guard = lock(&self.topic);
        let topic = locked(&mut guard);
        topic.try_recv(self.cursor)
    }
}

impl<T> PartialEq for BareSubscriber<T> {
    /// Whether `other` is the same cursor of the same channel.
    fn eq(&self, other: &BareSubscriber<T>) -> (same: bool)
        ensures
            same ==> self.cursor() == other.cursor(),
    {
        same_allocation(&self.topic, &other.topic) && self.cursor == other.cursor
    }
}

impl<T> PartialEqSpecImpl for BareSubscriber<T> {
    /// Sameness is in part a matter of addresses; contracts learn from `==`
    /// only what `eq` itself ensures.
    open spec fn obeys_eq_spec() -> bool {
        false
    }

    open spec fn eq_spec(&self, other: &BareSubscriber<T>) -> bool {
        self.cursor() == other.cursor()
    }
}

impl<T> Eq for BareSubscriber<T> {}

impl<T> Clone for BareSubscriber<T> {
    /// Performs [`Topic::subscribe`]: the copy reads with a cursor of its own,
    /// which starts with nothing unread.
    fn clone(&self) -> (copy: BareSubscriber<T>) {
        let mut guard = lock(&self.topic);
        let topic = locked(&mut guard);
        let cursor = topic.subscribe();
        BareSubscriber { topic: share(&self.topic), cursor }
    }
}

impl<T> Drop for BareSubscriber<T> {
    /// Performs [`Topic::unsubscribe`] for this end's cursor. What the cursor
    /// had not read is dropped once the lock is free again.
    fn drop(&mut self)
        opens_invariants none
        no_unwind
    {
        let _unread = {
            let mut guard = lock(&self.topic);
            let topic = locked(&mut guard);
            topic.unsubscribe(self.cursor)
        };
    }
}

} // verus!
