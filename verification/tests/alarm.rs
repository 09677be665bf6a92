use bus_queue::alarm::alarm;
use bus_queue::alarm::RegistrationQueueFull;
use bus_queue::alarm::Submission;
use bus_queue::alarm::REGISTRATION_SLOTS;
use futures::executor;
use futures::executor::Notify;
use futures::future;
use futures::task;
use futures::task::AtomicTask;
use futures::task::Task;
use futures::Async;
use std::sync::atomic::AtomicUsize;
use std::sync::atomic::Ordering;
use std::sync::Arc;

struct Bell {
    rings: AtomicUsize,
}

impl Bell {
    fn new() -> Arc<Bell> {
        Arc::new(Bell { rings: AtomicUsize::new(0) })
    }

    fn rings(&self) -> usize {
        self.rings.load(Ordering::SeqCst)
    }
}

impl Notify for Bell {
    fn notify(&self, _id: usize) {
        self.rings.fetch_add(1, Ordering::SeqCst);
    }
}

fn task_that_rings(bell: &Arc<Bell>) -> Task {
    let mut spawned = executor::spawn(future::lazy(|| Ok::<Task, ()>(task::current())));
    match spawned.poll_future_notify(bell, 0) {
        Ok(Async::Ready(task)) => task,
        _ => unreachable!(),
    }
}

#[test]
fn the_registry_starts_with_the_one_handle() {
    let (waker, sleeper) = alarm(17u32);
    assert_eq!(waker.sleepers.len(), 1);
    assert_eq!(*waker.sleepers[0], 17);
    assert!(Arc::ptr_eq(&waker.sleepers[0], &sleeper.sleeper));
    assert_eq!(Arc::strong_count(&sleeper.sleeper), 2);
}

#[test]
fn the_verdict_stops_only_a_full_queue() {
    assert_eq!(Submission::Queued.verdict(), Ok(()));
    assert_eq!(Submission::Full.verdict(), Err(RegistrationQueueFull));
    assert_eq!(Submission::Unclaimed.verdict(), Ok(()));
}

#[test]
fn the_outcome_is_read_off_the_answer_of_the_queue() {
    assert_eq!(Submission::of(None), Submission::Queued);
    assert_eq!(Submission::of(Some(true)), Submission::Full);
    assert_eq!(Submission::of(Some(false)), Submission::Unclaimed);
}

#[test]
fn a_drain_with_nothing_queued_changes_nothing() {
    let (mut waker, sleeper) = alarm('a');
    waker.register_receivers();
    waker.register_receivers();
    assert_eq!(waker.sleepers.len(), 1);
    assert!(Arc::ptr_eq(&waker.sleepers[0], &sleeper.sleeper));
}

#[test]
fn enlisted_handles_join_the_list_in_their_order() {
    let (mut waker, first) = alarm(1);
    let second = first.enlist(2).unwrap();
    let third = second.enlist(3).unwrap();
    assert_eq!(waker.sleepers.len(), 1);
    waker.register_receivers();
    assert_eq!(waker.sleepers.len(), 3);
    assert!(Arc::ptr_eq(&waker.sleepers[0], &first.sleeper));
    assert!(Arc::ptr_eq(&waker.sleepers[1], &second.sleeper));
    assert!(Arc::ptr_eq(&waker.sleepers[2], &third.sleeper));
    let fourth = first.enlist(4).unwrap();
    waker.register_receivers();
    assert_eq!(waker.sleepers.len(), 4);
    assert!(Arc::ptr_eq(&waker.sleepers[3], &fourth.sleeper));
    assert_eq!(*waker.sleepers[3], 4);
}

#[test]
fn a_handle_put_on_the_list_by_hand_goes_to_its_end() {
    let (mut waker, _sleeper) = alarm(1);
    waker.enroll(Arc::new(2));
    waker.enroll(Arc::new(3));
    let numbers: Vec<i32> = waker.sleepers.iter().map(|handle| **handle).collect();
    assert_eq!(numbers, vec![1, 2, 3]);
}

#[test]
fn one_sending_end_fills_the_queue() {
    let (mut waker, mut sleeper) = alarm(0usize);
    for number in 1..=REGISTRATION_SLOTS + 1 {
        assert_eq!(sleeper.submit(Arc::new(number)), Submission::Queued);
    }
    assert_eq!(sleeper.submit(Arc::new(99)), Submission::Full);
    assert_eq!(sleeper.submit(Arc::new(99)).verdict(), Err(RegistrationQueueFull));
    waker.register_receivers();
    let numbers: Vec<usize> = waker.sleepers.iter().map(|handle| **handle).collect();
    assert_eq!(numbers, (0..=REGISTRATION_SLOTS + 1).collect::<Vec<usize>>());
    assert_eq!(sleeper.submit(Arc::new(12)), Submission::Queued);
    waker.register_receivers();
    assert_eq!(waker.sleepers.len(), REGISTRATION_SLOTS + 3);
    assert_eq!(*waker.sleepers[REGISTRATION_SLOTS + 2], 12);
}

#[test]
fn a_full_queue_does_not_stop_a_new_consumer() {
    let (mut waker, mut sleeper) = alarm(0usize);
    for number in 1..=REGISTRATION_SLOTS + 1 {
        assert_eq!(sleeper.submit(Arc::new(number)), Submission::Queued);
    }
    assert_eq!(sleeper.submit(Arc::new(99)), Submission::Full);
    let newcomer = sleeper.enlist(100).unwrap();
    waker.register_receivers();
    assert_eq!(waker.sleepers.len(), REGISTRATION_SLOTS + 3);
    assert!(Arc::ptr_eq(&waker.sleepers[REGISTRATION_SLOTS + 2], &newcomer.sleeper));
}

#[test]
fn without_a_waker_a_handle_is_unclaimed() {
    let (waker, mut sleeper) = alarm(0);
    drop(waker);
    assert_eq!(sleeper.submit(Arc::new(1)), Submission::Unclaimed);
    let orphan = sleeper.enlist(2).unwrap();
    assert_eq!(*orphan.sleeper, 2);
}

#[test]
fn waking_rings_for_each_armed_handle_once() {
    let (mut waker, mut first) = alarm(AtomicTask::new());
    let mut second = first.enlist(AtomicTask::new()).unwrap();
    let _unarmed = first.enlist(AtomicTask::new()).unwrap();
    waker.register_receivers();
    assert_eq!(waker.sleepers.len(), 3);
    let one = Bell::new();
    let other = Bell::new();
    first.arm(task_that_rings(&one));
    second.arm(task_that_rings(&other));
    waker.wake_all();
    assert_eq!(one.rings(), 1);
    assert_eq!(other.rings(), 1);
    waker.wake_all();
    assert_eq!(one.rings(), 1);
    assert_eq!(other.rings(), 1);
    first.arm(task_that_rings(&one));
    waker.wake_all();
    assert_eq!(one.rings(), 2);
    assert_eq!(other.rings(), 1);
}

#[test]
fn arming_again_replaces_the_task() {
    let (mut waker, mut sleeper) = alarm(AtomicTask::new());
    let old = Bell::new();
    let new = Bell::new();
    sleeper.arm(task_that_rings(&old));
    sleeper.arm(task_that_rings(&new));
    waker.wake_all();
    assert_eq!(old.rings(), 0);
    assert_eq!(new.rings(), 1);
}

#[test]
fn a_handle_that_is_not_drained_yet_is_not_woken() {
    let (mut waker, first) = alarm(AtomicTask::new());
    let mut late = first.enlist(AtomicTask::new()).unwrap();
    let bell = Bell::new();
    late.arm(task_that_rings(&bell));
    waker.wake_all();
    assert_eq!(bell.rings(), 0);
    waker.register_receivers();
    waker.wake_all();
    assert_eq!(bell.rings(), 1);
}
