use bus_queue::bare::bare_channel;
use bus_queue::topic::SendError;
use bus_queue::topic::TryRecvError;
use std::sync::Arc;

#[test]
fn a_bare_channel_starts_with_one_subscriber_and_nothing_to_read() {
    let (publisher, subscriber) = bare_channel::<u8>(3);
    assert_eq!(publisher.get_sub_count(), 1);
    assert_eq!(subscriber.try_recv(), Err(TryRecvError::Empty));
}

#[test]
fn what_is_broadcast_is_read_in_order() {
    let (mut publisher, subscriber) = bare_channel(3);
    assert_eq!(publisher.broadcast("a"), Ok(()));
    assert_eq!(publisher.broadcast("b"), Ok(()));
    assert_eq!(subscriber.try_recv(), Ok(Arc::new("a")));
    assert_eq!(subscriber.try_recv(), Ok(Arc::new("b")));
    assert_eq!(subscriber.try_recv(), Err(TryRecvError::Empty));
}

#[test]
fn a_bare_clone_has_a_cursor_of_its_own() {
    let (mut publisher, first) = bare_channel(2);
    assert_eq!(publisher.broadcast(1), Ok(()));
    let second = first.clone();
    assert_eq!(publisher.get_sub_count(), 2);
    assert_eq!(publisher.broadcast(2), Ok(()));
    assert_eq!(second.try_recv(), Ok(Arc::new(2)));
    assert_eq!(second.try_recv(), Err(TryRecvError::Empty));
    assert_eq!(first.try_recv(), Ok(Arc::new(1)));
    assert_eq!(first.try_recv(), Ok(Arc::new(2)));
}

#[test]
fn a_full_subscriber_stops_the_publisher_until_it_reads_or_leaves() {
    let (mut publisher, reader) = bare_channel(1);
    let sleeper = reader.clone();
    assert_eq!(publisher.broadcast(1), Ok(()));
    assert_eq!(reader.try_recv(), Ok(Arc::new(1)));
    assert_eq!(publisher.broadcast(2), Err(SendError(2)));
    drop(sleeper);
    assert_eq!(publisher.get_sub_count(), 1);
    assert_eq!(publisher.broadcast(2), Ok(()));
    assert_eq!(reader.try_recv(), Ok(Arc::new(2)));
}

#[test]
fn the_last_subscriber_to_leave_leaves_nobody_to_send_to() {
    let (mut publisher, first) = bare_channel(1);
    let second = first.clone();
    drop(first);
    assert_eq!(publisher.broadcast(1), Ok(()));
    drop(second);
    assert_eq!(publisher.get_sub_count(), 0);
    assert_eq!(publisher.broadcast(2), Err(SendError(2)));
}

#[test]
fn dropping_the_publisher_ends_the_sequence_after_the_rest() {
    let (mut publisher, subscriber) = bare_channel(2);
    assert_eq!(publisher.broadcast('x'), Ok(()));
    drop(publisher);
    assert_eq!(subscriber.try_recv(), Ok(Arc::new('x')));
    assert_eq!(subscriber.try_recv(), Err(TryRecvError::Disconnected));
    assert_eq!(subscriber.try_recv(), Err(TryRecvError::Disconnected));
    let late = subscriber.clone();
    assert_eq!(late.try_recv(), Err(TryRecvError::Disconnected));
}

#[test]
fn a_dropped_item_is_freed_when_its_last_reader_is_done() {
    let (mut publisher, first) = bare_channel(2);
    let second = first.clone();
    let item = Arc::new(5);
    assert_eq!(publisher.broadcast(Arc::clone(&item)), Ok(()));
    assert_eq!(Arc::strong_count(&item), 2);
    drop(first.try_recv());
    assert_eq!(Arc::strong_count(&item), 2);
    drop(second);
    assert_eq!(Arc::strong_count(&item), 1);
}

#[test]
fn bare_ends_are_equal_to_themselves_only() {
    let (publisher, first) = bare_channel::<u8>(1);
    let second = first.clone();
    let (other_publisher, other_first) = bare_channel::<u8>(1);
    assert!(publisher == publisher);
    assert!(publisher != other_publisher);
    assert!(first == first);
    assert!(first != second);
    assert!(first != other_first);
}
