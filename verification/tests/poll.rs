use learn_async_rust::http::ReadEvent;
use learn_async_rust::pinning::AddrTracker;
use learn_async_rust::poll::{
    check, handle_read, Drained, Event, Interests, Poll, EPOLLET, EPOLLIN, EPOLLONESHOT,
    EPOLL_CTL_ADD, NO_TIMEOUT,
};
use std::collections::HashSet;

#[test]
fn flags_have_the_values_of_the_system_interface() {
    assert_eq!(EPOLLIN, 0x1);
    assert_eq!(EPOLLET, 1 << 31);
    assert_eq!(EPOLLONESHOT, 0x4000_0000);
    assert_eq!(EPOLL_CTL_ADD, 1);
    assert_eq!(NO_TIMEOUT, -1);
}

#[test]
fn check_reads_each_flag_of_a_bitmask() {
    assert_eq!(
        check(EPOLLIN | EPOLLET | EPOLLONESHOT),
        Interests { read: true, edge_triggered: true, oneshot: true }
    );
    assert_eq!(
        check(EPOLLIN | EPOLLET),
        Interests { read: true, edge_triggered: true, oneshot: false }
    );
    assert_eq!(check(0), Interests { read: false, edge_triggered: false, oneshot: false });
    assert_eq!(
        check(EPOLLONESHOT | 0x4),
        Interests { read: false, edge_triggered: false, oneshot: true }
    );
}

#[test]
fn poll_exists_only_for_a_valid_descriptor() {
    assert!(Poll::from_descriptor(-1).is_none());
    assert!(Poll::from_descriptor(i32::MIN).is_none());
    let poll = Poll::from_descriptor(0).unwrap();
    assert_eq!(poll.registry().raw_fd, 0);
    let poll = Poll::from_descriptor(5).unwrap();
    assert_eq!(poll.registry().raw_fd, 5);
}

#[test]
fn registration_carries_token_and_interests() {
    let poll = Poll::from_descriptor(3).unwrap();
    let event = poll.registry().registration(4, EPOLLIN | EPOLLET);
    assert_eq!(event, Event { events: 0x8000_0001, epoll_data: 4 });
    assert_eq!(event.token(), 4);
    let event = poll.registry().registration(0, EPOLLIN);
    assert_eq!(event.events, 1);
    assert_eq!(event.token(), 0);
}

#[test]
fn wait_without_timeout_waits_without_limit() {
    let poll = Poll::from_descriptor(3).unwrap();
    assert_eq!(poll.wait_arguments(10, None), (3, 10, -1));
    assert_eq!(poll.wait_arguments(100, Some(250)), (3, 100, 250));
    assert_eq!(poll.wait_arguments(0, Some(0)), (3, 0, 0));
}

#[test]
fn ready_events_is_the_result_unless_the_call_failed() {
    assert_eq!(Poll::ready_events(-1), None);
    assert_eq!(Poll::ready_events(0), Some(0));
    assert_eq!(Poll::ready_events(5), Some(5));
}

#[test]
fn source_counts_as_handled_once_when_read_to_its_end() {
    let mut handled = HashSet::new();
    assert_eq!(handle_read(&mut handled, 2, &ReadEvent::Bytes(vec![1, 2, 3])), Drained::More);
    assert!(handled.is_empty());
    assert_eq!(handle_read(&mut handled, 2, &ReadEvent::Bytes(vec![])), Drained::Done(true));
    assert!(handled.contains(&2));
    assert_eq!(handle_read(&mut handled, 2, &ReadEvent::Bytes(vec![])), Drained::Done(false));
    assert_eq!(handle_read(&mut handled, 3, &ReadEvent::Bytes(vec![])), Drained::Done(true));
    assert_eq!(handled.len(), 2);
}

#[test]
fn blocked_or_interrupted_read_ends_the_draining() {
    let mut handled = HashSet::new();
    assert_eq!(handle_read(&mut handled, 1, &ReadEvent::WouldBlock), Drained::Done(false));
    assert_eq!(handle_read(&mut handled, 1, &ReadEvent::Interrupted), Drained::Done(false));
    assert!(handled.is_empty());
}

#[test]
fn tracker_remembers_the_first_address() {
    let mut tracker = AddrTracker::default();
    assert_eq!(tracker, AddrTracker(None));
    assert!(tracker.check_for_move(0x1000));
    assert_eq!(tracker, AddrTracker(Some(0x1000)));
    assert!(tracker.check_for_move(0x1000));
    assert!(!tracker.check_for_move(0x2000));
    assert_eq!(tracker, AddrTracker(Some(0x1000)));
    assert!(tracker.check_for_move(0x1000));
}
