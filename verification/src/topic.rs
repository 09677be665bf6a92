//! The broadcast topic as a sequential data structure.
//!
//! A topic keeps one queue of unread items for every cursor that is attached
//! to it. Its model, [`TopicView`], is a map from cursors to those queues; the
//! operations of [`Topic`] are stated as functions on the model.
use crate::sync::share;
use std::collections::VecDeque;
use std::sync::Arc;
use vstd::prelude::*;

verus! {

/// A refused broadcast: carries the item back to the caller.
#[derive(Debug, PartialEq, Eq)]
pub struct SendError<T>(pub T);

/// Why a cursor has nothing to hand out.
#[derive(Debug, Clone, Copy, PartialEq, Eq)]
pub enum TryRecvError {
    /// Nothing is unread, and the publishing side is still there.
    Empty,
    /// Nothing is unread, and nothing will come: the publishing side is gone,
    /// or the cursor is not attached.
    Disconnected,
}

/// The model of a topic: what each attached cursor has not read yet.
#[verifier::ext_equal]
pub struct TopicView<T> {
    /// The most items that any cursor may leave unread.
    pub capacity: nat,
    /// Whether the publishing side is gone.
    pub closed: bool,
    /// The unread items of each attached cursor, oldest first.
    pub pending: Map<nat, Seq<T>>,
}

impl<T> TopicView<T> {
    /// A topic that was just made: open, with no cursor attached.
    pub open spec fn fresh(capacity: nat) -> Self {
        TopicView { capacity, closed: false, pending: Map::empty() }
    }

    /// Whether `id` is attached.
    pub open spec fn attached(self, id: nat) -> bool {
        self.pending.dom().contains(id)
    }

    /// The invariant of a topic: a positive capacity, finitely many cursors,
    /// none of them behind by more than the capacity.
    pub open spec fn wf(self) -> bool {
        &&& self.capacity > 0
        &&& self.pending.dom().finite()
        &&& forall|id: nat| self.attached(id) ==> (#[trigger] self.pending[id]).len() <= self.capacity
    }

    /// Whether every attached cursor can take one more item.
    pub open spec fn has_room(self) -> bool {
        forall|id: nat| self.attached(id) ==> (#[trigger] self.pending[id]).len() < self.capacity
    }

    /// Whether a broadcast is accepted: the topic is open, somebody listens,
    /// and nobody is a full capacity behind.
    pub open spec fn accepts(self) -> bool {
        &&& !self.closed
        &&& exists|id: nat| self.attached(id)
        &&& self.has_room()
    }

    /// The topic after a broadcast of `item`. An accepted item is appended to
    /// every queue; a refused one changes nothing.
    pub open spec fn broadcast(self, item: T) -> Self {
        if self.accepts() {
            TopicView { pending: self.pending.map_values(|q: Seq<T>| q.push(item)), ..self }
        } else {
            self
        }
    }

    /// What cursor `id` gets when it asks for its next item.
    pub open spec fn next(self, id: nat) -> Result<T, TryRecvError> {
        if self.attached(id) && self.pending[id].len() > 0 {
            Ok(self.pending[id][0])
        } else if self.closed || !self.attached(id) {
            Err(TryRecvError::Disconnected)
        } else {
            Err(TryRecvError::Empty)
        }
    }

    /// The topic after cursor `id` asked for its next item: the item that was
    /// handed out, if any, has left that cursor's queue.
    pub open spec fn receive(self, id: nat) -> Self {
        if self.attached(id) && self.pending[id].len() > 0 {
            TopicView { pending: self.pending.insert(id, self.pending[id].drop_first()), ..self }
        } else {
            self
        }
    }

    /// The topic with cursor `id` attached and nothing unread on it.
    pub open spec fn subscribe(self, id: nat) -> Self {
        TopicView { pending: self.pending.insert(id, Seq::empty()), ..self }
    }

    /// The topic without cursor `id`.
    pub open spec fn unsubscribe(self, id: nat) -> Self {
        TopicView { pending: self.pending.remove(id), ..self }
    }

    /// The topic once the publishing side is gone.
    pub open spec fn close(self) -> Self {
        TopicView { closed: true, ..self }
    }

    /// The least cursor that is not attached.
    pub open spec fn is_least_free(self, id: nat) -> bool {
        &&& !self.attached(id)
        &&& forall|below: nat| below < id ==> self.attached(below)
    }

    /// A broadcast keeps the invariant.
    pub proof fn lemma_broadcast_keeps_wf(self, item: T)
        requires
            self.wf(),
        ensures
            self.broadcast(item).wf(),
    {
        if self.accepts() {
            assert(self.broadcast(item).pending.dom() =~= self.pending.dom());
        }
    }

    /// Handing out an item keeps the invariant.
    pub proof fn lemma_receive_keeps_wf(self, id: nat)
        requires
            self.wf(),
        ensures
            self.receive(id).wf(),
    {
        if self.attached(id) {
            assert(self.receive(id).pending.dom() =~= self.pending.dom());
        }
    }

    /// Attaching a cursor keeps the invariant.
    pub proof fn lemma_subscribe_keeps_wf(self, id: nat)
        requires
            self.wf(),
        ensures
            self.subscribe(id).wf(),
    {
        let joined = self.subscribe(id);
        assert forall|at: nat| joined.attached(at) implies (#[trigger] joined.pending[at]).len()
            <= joined.capacity by {
            if at != id {
                assert(self.attached(at));
            }
        }
    }

    /// Detaching a cursor keeps the invariant.
    pub proof fn lemma_unsubscribe_keeps_wf(self, id: nat)
        requires
            self.wf(),
        ensures
            self.unsubscribe(id).wf(),
    {
        let left = self.unsubscribe(id);
        assert forall|at: nat| left.attached(at) implies (#[trigger] left.pending[at]).len()
            <= left.capacity by {
            assert(self.attached(at));
        }
    }
}

/// The items behind a queue of shared references.
pub open spec fn items<T>(queue: Seq<Arc<T>>) -> Seq<T> {
    queue.map_values(|shared: Arc<T>| *shared)
}

/// What a reader got, without the sharing.
pub open spec fn unshared<T>(got: Result<Arc<T>, TryRecvError>) -> Result<T, TryRecvError> {
    match got {
        Ok(shared) => Ok(*shared),
        Err(e) => Err(e),
    }
}

/// A bounded broadcast buffer with one read cursor per subscriber.
pub struct Topic<T> {
    capacity: usize,
    closed: bool,
    cursors: Vec<Option<VecDeque<Arc<T>>>>,
}

impl<T> View for Topic<T> {
    type V = TopicView<T>;

    closed spec fn view(&self) -> TopicView<T> {
        TopicView {
            capacity: self.capacity as nat,
            closed: self.closed,
            pending: Map::new(
                |id: nat| self.holds(id),
                |id: nat| self.unread(id),
            ),
        }
    }
}

impl<T> Topic<T> {
    /// Whether slot `id` holds a queue.
    spec fn holds(&self, id: nat) -> bool {
        id < self.cursors@.len() && self.cursors@[id as int] is Some
    }

    /// The items in the queue of slot `id`.
    spec fn unread(&self, id: nat) -> Seq<T> {
        items(self.cursors@[id as int]->0@)
    }

    /// The model read off the slots.
    proof fn lemma_view(&self)
        ensures
            self@.capacity == self.capacity,
            self@.closed == self.closed,
            forall|id: nat| #![trigger self@.attached(id)] self@.attached(id) == self.holds(id),
            forall|id: nat| self.holds(id) ==> #[trigger] self@.pending[id] == self.unread(id),
    {
    }

    /// An open topic of the given capacity, with no cursor attached.
    pub fn new(capacity: usize) -> (topic: Self)
        requires
            capacity > 0,
        ensures
            topic@ == TopicView::<T>::fresh(capacity as nat),
            topic@.wf(),
    {
        let topic = Topic { capacity, closed: false, cursors: Vec::new() };
        assert(topic@.pending =~= Map::<nat, Seq<T>>::empty());
        topic
    }

    /// The most items that a cursor may leave unread.
    pub fn capacity(&self) -> (capacity: usize)
        ensures
            capacity == self@.capacity,
    {
        self.capacity
    }

    /// Whether the publishing side is gone.
    pub fn is_closed(&self) -> (closed: bool)
        ensures
            closed == self@.closed,
    {
        self.closed
    }

    /// Marks the publishing side as gone. What is unread stays readable.
    pub fn close(&mut self)
        ensures
            final(self)@ == old(self)@.close(),
            old(self)@.wf() ==> final(self)@.wf(),
        opens_invariants none
        no_unwind
    {
        self.closed = true;
        assert(self@.pending =~= old(self)@.pending);
    }

    /// Attaches a cursor with nothing unread: it will see what is broadcast
    /// from now on. The cursor gets the least number that is free.
    pub fn subscribe(&mut self) -> (id: usize)
        ensures
            old(self)@.is_least_free(id as nat),
            final(self)@ == old(self)@.subscribe(id as nat),
            old(self)@.wf() ==> final(self)@.wf(),
    {
        let mut id: usize = 0;
        while id < self.cursors.len()
            invariant
                id <= self.cursors@.len(),
                *self == *old(self),
                forall|below: nat| below < id ==> self.holds(below),
            decreases self.cursors@.len() - id,
        {
            if self.cursors[id].is_none() {
                self.cursors[id] = Some(VecDeque::new());
                proof {
                    assert(self@.pending[id as nat] =~= Seq::<T>::empty());
                    assert(self@.pending =~= old(self)@.subscribe(id as nat).pending);
                    if old(self)@.wf() {
                        old(self)@.lemma_subscribe_keeps_wf(id as nat);
                    }
                }
                return id;
            }
            id += 1;
        }
        self.cursors.push(Some(VecDeque::new()));
        proof {
            assert(self@.pending[id as nat] =~= Seq::<T>::empty());
            assert(self@.pending =~= old(self)@.subscribe(id as nat).pending);
            if old(self)@.wf() {
                old(self)@.lemma_subscribe_keeps_wf(id as nat);
            }
        }
        id
    }

    /// The attached cursors with a number under `bound`.
    spec fn attached_below(&self, bound: nat) -> Set<nat> {
        Set::new(|id: nat| id < bound && self.holds(id))
    }

    /// Counting the attached cursors slot by slot.
    proof fn lemma_attached_below(&self, bound: nat)
        ensures
            self.attached_below(bound).finite(),
            self.attached_below(bound).len() <= bound,
            bound > 0 && self.holds((bound - 1) as nat) ==> self.attached_below(bound).len()
                == self.attached_below((bound - 1) as nat).len() + 1,
            bound > 0 && !self.holds((bound - 1) as nat) ==> self.attached_below(bound).len()
                == self.attached_below((bound - 1) as nat).len(),
        decreases bound,
    {
        if bound == 0 {
            assert(self.attached_below(bound) =~= Set::<nat>::empty());
        } else {
            let under = (bound - 1) as nat;
            self.lemma_attached_below(under);
            if self.holds(under) {
                assert(self.attached_below(bound) =~= self.attached_below(under).insert(under));
            } else {
                assert(self.attached_below(bound) =~= self.attached_below(under));
            }
        }
    }

    /// How many cursors are attached.
    pub fn get_sub_count(&self) -> (count: usize)
        ensures
            self@.pending.dom().finite(),
            count == self@.pending.dom().len(),
    {
        let mut count: usize = 0;
        let mut id: usize = 0;
        proof {
            self.lemma_attached_below(0);
        }
        while id < self.cursors.len()
            invariant
                id <= self.cursors@.len(),
                count == self.attached_below(id as nat).len(),
                count <= id,
            decreases self.cursors@.len() - id,
        {
            proof {
                self.lemma_attached_below((id + 1) as nat);
            }
            if self.cursors[id].is_some() {
                count += 1;
            }
            id += 1;
        }
        proof {
            self.lemma_attached_below(id as nat);
            assert(self@.pending.dom() =~= self.attached_below(id as nat));
        }
        count
    }

    /// Whether somebody listens and nobody is a full capacity behind.
    fn ready(&self) -> (ready: bool)
        ensures
            ready == ((exists|id: nat| self@.attached(id)) && self@.has_room()),
    {
        let mut listeners = false;
        let ghost mut listener: nat = 0;
        let mut id: usize = 0;
        while id < self.cursors.len()
            invariant
                id <= self.cursors@.len(),
                listeners ==> listener < id && self.holds(listener),
                !listeners ==> forall|at: nat| at < id ==> !self.holds(at),
                forall|at: nat| at < id && self.holds(at) ==> (#[trigger] self.unread(at)).len() < self.capacity,
            decreases self.cursors@.len() - id,
        {
            match &self.cursors[id] {
                Some(queue) => {
                    if queue.len() >= self.capacity {
                        proof {
                            self.lemma_view();
                            assert(self@.attached(id as nat));
                            assert(self@.pending[id as nat].len() >= self.capacity);
                        }
                        return false;
                    }
                    proof {
                        listener = id as nat;
                    }
                    listeners = true;
                },
                None => {},
            }
            id += 1;
        }
        proof {
            self.lemma_view();
            if listeners {
                assert(self@.attached(listener));
            }
            assert(self@.has_room());
        }
        listeners
    }

    /// Hands `item` to every attached cursor, or refuses it and gives it back:
    /// it is refused when the topic is closed, when no cursor is attached, and
    /// when some cursor already has a full capacity of unread items. A refusal
    /// changes nothing.
    pub fn broadcast(&mut self, item: T) -> (sent: Result<(), SendError<T>>)
        ensures
            final(self)@ == old(self)@.broadcast(item),
            old(self)@.accepts() ==> sent is Ok,
            !old(self)@.accepts() ==> sent == Err::<(), SendError<T>>(SendError(item)),
            old(self)@.wf() ==> final(self)@.wf(),
    {
        proof {
            if old(self)@.wf() {
                old(self)@.lemma_broadcast_keeps_wf(item);
            }
        }
        if self.closed || !self.ready() {
            return Err(SendError(item));
        }
        let shared = Arc::new(item);
        let mut id: usize = 0;
        while id < self.cursors.len()
            invariant
                id <= self.cursors@.len(),
                self.cursors@.len() == old(self).cursors@.len(),
                self.capacity == old(self).capacity,
                self.closed == old(self).closed,
                *shared == item,
                forall|at: nat| #![trigger self.holds(at)] self.holds(at) == old(self).holds(at),
                forall|at: nat|
                    at < id && old(self).holds(at) ==> #[trigger] self.unread(at) == old(self).unread(
                        at,
                    ).push(item),
                forall|at: nat|
                    at >= id && old(self).holds(at) ==> #[trigger] self.unread(at) == old(self).unread(at),
            decreases self.cursors@.len() - id,
        {
            let ghost before = *self;
            match &mut self.cursors[id] {
                Some(queue) => {
                    queue.push_back(share(&shared));
                },
                None => {},
            }
            proof {
                assert forall|at: nat| #![trigger self.holds(at)] self.holds(at) == before.holds(at) by {}
                assert forall|at: nat| at != id && before.holds(at) implies #[trigger] self.unread(at)
                    == before.unread(at) by {}
                if before.holds(id as nat) {
                    assert(self.unread(id as nat) =~= before.unread(id as nat).push(item));
                }
            }
            id += 1;
        }
        proof {
            self.lemma_view();
            old(self).lemma_view();
            assert(self@.pending =~= old(self)@.broadcast(item).pending);
        }
        Ok(())
    }

    /// Hands cursor `id` its oldest unread item. With nothing unread it
    /// reports `Empty` while the publishing side is there and `Disconnected`
    /// once it is gone; a cursor that is not attached is `Disconnected` too.
    pub fn try_recv(&mut self, id: usize) -> (got: Result<Arc<T>, TryRecvError>)
        ensures
            unshared(got) == old(self)@.next(id as nat),
            final(self)@ == old(self)@.receive(id as nat),
            old(self)@.wf() ==> final(self)@.wf(),
    {
        proof {
            if old(self)@.wf() {
                old(self)@.lemma_receive_keeps_wf(id as nat);
            }
        }
        if id >= self.cursors.len() {
            return Err(TryRecvError::Disconnected);
        }
        if self.cursors[id].is_none() {
            return Err(TryRecvError::Disconnected);
        }
        let taken = match &mut self.cursors[id] {
            Some(queue) => queue.pop_front(),
            None => None,
        };
        match taken {
            Some(shared) => {
                proof {
                    self.lemma_view();
                    old(self).lemma_view();
                    assert(self.unread(id as nat) =~= old(self).unread(id as nat).drop_first());
                    assert(self@.pending =~= old(self)@.receive(id as nat).pending);
                }
                Ok(shared)
            },
            None => {
                proof {
                    self.lemma_view();
                    old(self).lemma_view();
                    assert(self.unread(id as nat) =~= old(self).unread(id as nat));
                    assert(self@.pending =~= old(self)@.pending);
                }
                if self.closed {
                    Err(TryRecvError::Disconnected)
                } else {
                    Err(TryRecvError::Empty)
                }
            },
        }
    }

    /// Detaches cursor `id` and hands out the queue of what it had not read,
    /// so that the caller decides where those items are dropped. For a cursor
    /// that is not attached nothing changes and nothing is handed out.
    pub fn unsubscribe(&mut self, id: usize) -> (detached: Option<VecDeque<Arc<T>>>)
        ensures
            final(self)@ == old(self)@.unsubscribe(id as nat),
            detached is Some <==> old(self)@.attached(id as nat),
            detached matches Some(queue) ==> items(queue@) == old(self)@.pending[id as nat],
            old(self)@.wf() ==> final(self)@.wf(),
        opens_invariants none
        no_unwind
    {
        proof {
            if old(self)@.wf() {
                old(self)@.lemma_unsubscribe_keeps_wf(id as nat);
            }
        }
        let mut detached = None;
        if id < slot_count(&self.cursors) {
            std::mem::swap(slot_mut(&mut self.cursors, id), &mut detached);
        }
        assert(self@.pending =~= old(self)@.unsubscribe(id as nat).pending);
        detached
    }
}

/// `Vec::len`: the number of slots. The call opens no invariant and does not
/// unwind, so a destructor may make it.
#[verifier::external_body]
fn slot_count<V>(slots: &Vec<V>) -> (count: usize)
    ensures
        count == slots@.len(),
    opens_invariants none
    no_unwind
{
    slots.len()
}

/// `IndexMut` of a `Vec`: the slot at `at`, which is in range, to be written
/// in place; the other slots stay as they are. The call opens no invariant and
/// does not unwind, so a destructor may make it.
#[verifier::external_body]
fn slot_mut<V>(slots: &mut Vec<V>, at: usize) -> (slot: &mut V)
    requires
        at < old(slots)@.len(),
    ensures
        *slot == old(slots)@[at as int],
        final(slots)@ == old(slots)@.update(at as int, *final(slot)),
    opens_invariants none
    no_unwind
{
    &mut slots[at]
}

} // verus!
