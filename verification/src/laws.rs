//! What holds of every run of a topic and of every publish, proved from the
//! models that the contracts of [`Topic`](crate::topic::Topic),
//! [`Waker`](crate::alarm::Waker) and
//! [`Subscriber`](crate::async_::Subscriber) are stated in.
use crate::alarm::WakerView;
use crate::async_::report;
use crate::async_::Async;
use crate::async_::Phase;
use crate::topic::TopicView;
use crate::topic::TryRecvError;
use std::sync::Arc;
use vstd::prelude::*;

verus! {

/// One operation on a topic.
pub enum Step<T> {
    /// The publisher offers an item.
    Broadcast(T),
    /// A cursor asks for its next item.
    Receive(nat),
    /// A cursor is attached.
    Subscribe(nat),
    /// A cursor is detached.
    Unsubscribe(nat),
    /// The publisher goes away.
    Close,
}

impl<T> Step<T> {
    /// Whether the step attaches or detaches cursor `id`.
    pub open spec fn rewires(self, id: nat) -> bool {
        self == Step::<T>::Subscribe(id) || self == Step::<T>::Unsubscribe(id)
    }

    /// Whether the step is cursor `id` asking for its next item.
    pub open spec fn reads(self, id: nat) -> bool {
        self == Step::<T>::Receive(id)
    }
}

impl<T> TopicView<T> {
    /// The topic after one step.
    pub open spec fn step(self, step: Step<T>) -> Self {
        match step {
            Step::Broadcast(item) => self.broadcast(item),
            Step::Receive(id) => self.receive(id),
            Step::Subscribe(id) => self.subscribe(id),
            Step::Unsubscribe(id) => self.unsubscribe(id),
            Step::Close => self.close(),
        }
    }

    /// The topic after the steps of `steps`, first to last.
    pub open spec fn run(self, steps: Seq<Step<T>>) -> Self
        decreases steps.len(),
    {
        if steps.len() == 0 {
            self
        } else {
            self.step(steps[0]).run(steps.drop_first())
        }
    }

    /// The items that the topic accepts in the course of `steps`, in order.
    pub open spec fn accepted(self, steps: Seq<Step<T>>) -> Seq<T>
        decreases steps.len(),
    {
        if steps.len() == 0 {
            Seq::empty()
        } else {
            let rest = self.step(steps[0]).accepted(steps.drop_first());
            match steps[0] {
                Step::Broadcast(item) => if self.accepts() {
                    seq![item] + rest
                } else {
                    rest
                },
                _ => rest,
            }
        }
    }

    /// The items that cursor `id` is handed in the course of `steps`, in order.
    pub open spec fn handed(self, steps: Seq<Step<T>>, id: nat) -> Seq<T>
        decreases steps.len(),
    {
        if steps.len() == 0 {
            Seq::empty()
        } else {
            let rest = self.step(steps[0]).handed(steps.drop_first(), id);
            if steps[0].reads(id) && self.next(id) is Ok {
                seq![self.next(id)->Ok_0] + rest
            } else {
                rest
            }
        }
    }

    /// The topic after cursor `id` asked for its next item `times` times.
    pub open spec fn drain(self, id: nat, times: nat) -> Self
        decreases times,
    {
        if times == 0 {
            self
        } else {
            self.receive(id).drain(id, (times - 1) as nat)
        }
    }
}

/// Whether no step of `steps` attaches or detaches cursor `id`.
pub open spec fn leaves_attached<T>(steps: Seq<Step<T>>, id: nat) -> bool {
    forall|at: int| 0 <= at < steps.len() ==> !(#[trigger] steps[at]).rewires(id)
}

/// Whether no step of `steps` is cursor `id` asking for an item.
pub open spec fn leaves_unread<T>(steps: Seq<Step<T>>, id: nat) -> bool {
    forall|at: int| 0 <= at < steps.len() ==> !(#[trigger] steps[at]).reads(id)
}

/// No step breaks the invariant of a topic: no cursor ever falls behind by
/// more than the capacity.
pub proof fn law_steps_keep_the_invariant<T>(topic: TopicView<T>, steps: Seq<Step<T>>)
    requires
        topic.wf(),
    ensures
        topic.run(steps).wf(),
    decreases steps.len(),
{
    if steps.len() > 0 {
        match steps[0] {
            Step::Broadcast(item) => topic.lemma_broadcast_keeps_wf(item),
            Step::Receive(id) => topic.lemma_receive_keeps_wf(id),
            Step::Subscribe(id) => topic.lemma_subscribe_keeps_wf(id),
            Step::Unsubscribe(id) => topic.lemma_unsubscribe_keeps_wf(id),
            Step::Close => {},
        }
        law_steps_keep_the_invariant(topic.step(steps[0]), steps.drop_first());
    }
}

/// A broadcast is all or nothing: where the topic accepts the item, every
/// attached cursor has it as its newest unread item; where it refuses, nothing
/// has changed.
pub proof fn law_broadcast_is_all_or_nothing<T>(topic: TopicView<T>, item: T, id: nat)
    requires
        topic.attached(id),
    ensures
        topic.accepts() ==> topic.broadcast(item).pending[id] == topic.pending[id].push(item),
        !topic.accepts() ==> topic.broadcast(item) == topic,
        topic.broadcast(item).attached(id),
{
}

/// Each item once, in order: for a cursor that stays attached, what it was
/// handed during a run, followed by what it has not read at the end, is what
/// it had not read at the start, followed by what the topic accepted during
/// the run.
pub proof fn law_each_item_once_in_order<T>(topic: TopicView<T>, steps: Seq<Step<T>>, id: nat)
    requires
        topic.attached(id),
        leaves_attached(steps, id),
    ensures
        topic.run(steps).attached(id),
        topic.handed(steps, id) + topic.run(steps).pending[id] == topic.pending[id] + topic.accepted(
            steps,
        ),
    decreases steps.len(),
{
    if steps.len() == 0 {
        assert(topic.handed(steps, id) + topic.run(steps).pending[id] =~= topic.pending[id]
            + topic.accepted(steps));
    } else {
        let first = steps[0];
        let rest = steps.drop_first();
        let then = topic.step(first);
        assert(!first.rewires(id));
        assert(then.attached(id));
        assert forall|at: int| 0 <= at < rest.len() implies !(#[trigger] rest[at]).rewires(id) by {
            assert(rest[at] == steps[at + 1]);
        }
        law_each_item_once_in_order(then, rest, id);
        let end = topic.run(steps).pending[id];
        assert(then.handed(rest, id) + end == then.pending[id] + then.accepted(rest));
        match first {
            Step::Broadcast(item) => {
                if topic.accepts() {
                    assert(then.pending[id] == topic.pending[id].push(item));
                    assert(topic.pending[id].push(item) + then.accepted(rest) =~= topic.pending[id]
                        + (seq![item] + then.accepted(rest)));
                } else {
                }
            },
            Step::Receive(reader) => {
                if reader == id && topic.pending[id].len() > 0 {
                    assert(topic.next(id) == Ok::<T, TryRecvError>(topic.pending[id][0]));
                    assert((seq![topic.pending[id][0]] + then.handed(rest, id)) + end =~= seq![
                        topic.pending[id][0],
                    ] + (then.handed(rest, id) + end));
                    assert(seq![topic.pending[id][0]] + (topic.pending[id].drop_first()
                        + then.accepted(rest)) =~= topic.pending[id] + then.accepted(rest));
                } else if reader == id {
                    assert(topic.next(id) is Err);
                } else {
                    assert(!first.reads(id));
                }
            },
            Step::Subscribe(other) => {},
            Step::Unsubscribe(other) => {},
            Step::Close => {},
        }
    }
}

/// Nothing from before, everything from after: a cursor that is attached now
/// starts with nothing unread, whatever was broadcast before; and from then
/// on, what it is handed followed by what it has not read yet is what the
/// topic has accepted since.
pub proof fn law_a_subscriber_sees_what_follows<T>(topic: TopicView<T>, id: nat, steps: Seq<Step<T>>)
    requires
        leaves_attached(steps, id),
    ensures
        topic.subscribe(id).pending[id] == Seq::<T>::empty(),
        topic.subscribe(id).handed(steps, id) + topic.subscribe(id).run(steps).pending[id]
            == topic.subscribe(id).accepted(steps),
{
    let joined = topic.subscribe(id);
    law_each_item_once_in_order(joined, steps, id);
    assert(joined.pending[id] + joined.accepted(steps) =~= joined.accepted(steps));
}

/// A cursor that only waits is handed nothing.
pub proof fn law_waiting_hands_out_nothing<T>(topic: TopicView<T>, steps: Seq<Step<T>>, id: nat)
    requires
        leaves_unread(steps, id),
    ensures
        topic.handed(steps, id) == Seq::<T>::empty(),
    decreases steps.len(),
{
    if steps.len() > 0 {
        let rest = steps.drop_first();
        assert(!steps[0].reads(id));
        assert forall|at: int| 0 <= at < rest.len() implies !(#[trigger] rest[at]).reads(id) by {
            assert(rest[at] == steps[at + 1]);
        }
        law_waiting_hands_out_nothing(topic.step(steps[0]), rest, id);
    }
}

/// No item is missed: a cursor that found nothing, and then waits while the
/// topic accepts at least one item, finds the first of those items when it
/// asks again.
pub proof fn law_no_item_is_missed<T>(topic: TopicView<T>, steps: Seq<Step<T>>, id: nat)
    requires
        topic.attached(id),
        topic.next(id) == Err::<T, TryRecvError>(TryRecvError::Empty),
        leaves_attached(steps, id),
        leaves_unread(steps, id),
        topic.accepted(steps).len() > 0,
    ensures
        topic.run(steps).next(id) == Ok::<T, TryRecvError>(topic.accepted(steps)[0]),
{
    law_each_item_once_in_order(topic, steps, id);
    law_waiting_hands_out_nothing(topic, steps, id);
    assert(topic.pending[id] =~= Seq::<T>::empty());
    assert(topic.run(steps).pending[id] =~= topic.accepted(steps)) by {
        assert(topic.handed(steps, id) + topic.run(steps).pending[id] =~= topic.run(
            steps,
        ).pending[id]);
        assert(topic.pending[id] + topic.accepted(steps) =~= topic.accepted(steps));
    }
}

/// No registration is missed: a handle that is on the list or on the
/// registration queue when a publish drains the queue is notified by that
/// publish, if the publish is accepted.
pub proof fn law_no_registration_is_missed<H>(waker: WakerView<H>, queued: Seq<H>, handle: H)
    requires
        waker.active.contains(handle) || queued.contains(handle),
    ensures
        waker.enrolled(queued).woken().notified.skip(waker.notified.len() as int).contains(handle),
        waker.notified.is_prefix_of(waker.enrolled(queued).woken().notified),
{
    let list = waker.active + queued;
    let news = waker.enrolled(queued).woken().notified.skip(waker.notified.len() as int);
    assert(news =~= list);
    if waker.active.contains(handle) {
        let at = choose|at: int| 0 <= at < waker.active.len() && waker.active[at] == handle;
        assert(list[at] == handle);
    } else {
        let at = choose|at: int| 0 <= at < queued.len() && queued[at] == handle;
        assert(list[waker.active.len() + at] == handle);
    }
}

/// No wake-up is missed: take a subscriber that found nothing to read, with
/// its handle on the publisher's list or on the registration queue. If the
/// publisher then has an item accepted, that publish notifies the handle, and
/// the subscriber finds the item when it asks again.
pub proof fn law_no_wakeup_is_missed<T, H>(
    waker: WakerView<H>,
    queued: Seq<H>,
    handle: H,
    topic: TopicView<T>,
    id: nat,
    item: T,
)
    requires
        topic.attached(id),
        topic.next(id) == Err::<T, TryRecvError>(TryRecvError::Empty),
        waker.active.contains(handle) || queued.contains(handle),
        topic.accepts(),
    ensures
        waker.enrolled(queued).woken().notified.skip(waker.notified.len() as int).contains(handle),
        topic.broadcast(item).next(id) == Ok::<T, TryRecvError>(item),
{
    law_no_registration_is_missed(waker, queued, handle);
    assert(topic.pending[id].push(item)[0] == item);
}

/// Cursors are independent: what one cursor reads changes neither what
/// another has unread nor what it is handed next, two reads by different
/// cursors come to the same in either order, and a cursor that is attached or
/// detached leaves the others as they are.
pub proof fn law_cursors_are_independent<T>(topic: TopicView<T>, one: nat, other: nat)
    requires
        one != other,
    ensures
        topic.receive(one).attached(other) == topic.attached(other),
        topic.attached(other) ==> topic.receive(one).pending[other] == topic.pending[other],
        topic.receive(one).next(other) == topic.next(other),
        topic.receive(one).receive(other) == topic.receive(other).receive(one),
        topic.subscribe(one).next(other) == topic.next(other),
        topic.unsubscribe(one).next(other) == topic.next(other),
{
    assert(topic.receive(one).receive(other).pending =~= topic.receive(other).receive(one).pending);
}

/// Once the publisher is gone, a cursor is handed what it has unread, item by
/// item, and then is told of the end.
pub proof fn law_the_end_comes_after_the_rest<T>(topic: TopicView<T>, id: nat, taken: nat)
    requires
        topic.closed,
        topic.attached(id),
        taken <= topic.pending[id].len(),
    ensures
        topic.drain(id, taken).closed,
        topic.drain(id, taken).attached(id),
        topic.drain(id, taken).pending[id] == topic.pending[id].skip(taken as int),
        taken < topic.pending[id].len() ==> topic.drain(id, taken).next(id) == Ok::<T, TryRecvError>(
            topic.pending[id][taken as int],
        ),
        taken == topic.pending[id].len() ==> topic.drain(id, taken).next(id) == Err::<
            T,
            TryRecvError,
        >(TryRecvError::Disconnected),
    decreases taken,
{
    if taken == 0 {
        assert(topic.pending[id].skip(0) =~= topic.pending[id]);
    } else {
        let then = topic.receive(id);
        law_the_end_comes_after_the_rest(then, id, (taken - 1) as nat);
        assert(then.pending[id].skip(taken - 1) =~= topic.pending[id].skip(taken as int));
    }
}

/// The end is final for a cursor: once an attached cursor was told of the end,
/// it is told so again after any steps whatever.
pub proof fn law_the_end_is_final<T>(topic: TopicView<T>, steps: Seq<Step<T>>, id: nat)
    requires
        topic.attached(id),
        topic.next(id) == Err::<T, TryRecvError>(TryRecvError::Disconnected),
    ensures
        topic.run(steps).next(id) == Err::<T, TryRecvError>(TryRecvError::Disconnected),
{
    lemma_closed_and_read_stays(topic, steps, id);
}

/// A closed topic on which cursor `id` has nothing unread stays so.
proof fn lemma_closed_and_read_stays<T>(topic: TopicView<T>, steps: Seq<Step<T>>, id: nat)
    requires
        topic.closed,
        topic.attached(id) ==> topic.pending[id].len() == 0,
    ensures
        topic.run(steps).closed,
        topic.run(steps).attached(id) ==> topic.run(steps).pending[id].len() == 0,
    decreases steps.len(),
{
    if steps.len() > 0 {
        lemma_closed_and_read_stays(topic.step(steps[0]), steps.drop_first(), id);
    }
}

/// The end is final for a subscriber: what a poll reports for an end is the
/// end, and the phase that goes with it is `Terminated`; nothing else leads
/// there.
pub proof fn law_terminated_means_the_end<T>(got: Result<Arc<T>, TryRecvError>)
    ensures
        Phase::after(got) == Phase::of(report(got)),
        Phase::after(got) == Phase::Terminated <==> got == Err::<Arc<T>, TryRecvError>(
            TryRecvError::Disconnected,
        ),
        Phase::after(got) == Phase::Terminated <==> report(got) == Async::<Option<Arc<T>>>::Ready(
            None,
        ),
{
}

} // verus!
