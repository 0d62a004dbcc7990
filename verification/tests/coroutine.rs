use learn_async_rust::coroutine::{Coroutine, Resume, Stage};
use learn_async_rust::future::PollState;

#[test]
fn new_coroutine_stands_at_the_start() {
    let c = Coroutine::new("/600/HelloAsyncAwait", "/400/HelloAsyncAwait");
    assert_eq!(c.stage, Stage::Start);
    assert_eq!(c.buffer, "");
    assert_eq!(c.first, "/600/HelloAsyncAwait");
    assert_eq!(c.second, "/400/HelloAsyncAwait");
}

#[test]
fn coroutine_awaits_the_two_requests_in_turn() {
    let mut c = Coroutine::new("/600/HelloAsyncAwait", "/400/HelloAsyncAwait");
    assert_eq!(c.start(), "/600/HelloAsyncAwait");
    assert_eq!(c.stage, Stage::Wait1);
    assert_eq!(c.buffer, "\nBUFFER:\n----\n");
    assert!(matches!(c.on_child(PollState::NotReady), Resume::NotReady));
    assert_eq!(c.stage, Stage::Wait1);
    assert_eq!(c.buffer, "\nBUFFER:\n----\n");
    match c.on_child(PollState::Ready("one".to_string())) {
        Resume::Await(path) => assert_eq!(path, "/400/HelloAsyncAwait"),
        _ => panic!("the second request follows the first response"),
    }
    assert_eq!(c.stage, Stage::Wait2);
    assert_eq!(c.buffer, "\nBUFFER:\n----\none\n");
    assert!(matches!(c.on_child(PollState::NotReady), Resume::NotReady));
    assert_eq!(c.stage, Stage::Wait2);
    match c.on_child(PollState::Ready("two".to_string())) {
        Resume::Ready(collected) => assert_eq!(collected, "\nBUFFER:\n----\none\ntwo\n"),
        _ => panic!("the coroutine is done after the second response"),
    }
    assert_eq!(c.stage, Stage::Resolved);
    assert_eq!(c.buffer, "");
    assert_eq!(c.first, "/600/HelloAsyncAwait");
    assert_eq!(c.second, "/400/HelloAsyncAwait");
}

#[test]
fn coroutine_with_ready_children_needs_no_waiting() {
    let mut c = Coroutine::new("/a", "/b");
    assert_eq!(c.start(), "/a");
    assert!(matches!(c.on_child(PollState::Ready(String::new())), Resume::Await(_)));
    match c.on_child(PollState::Ready(String::new())) {
        Resume::Ready(collected) => assert_eq!(collected, "\nBUFFER:\n----\n\n\n"),
        _ => panic!("the coroutine is done after the second response"),
    }
}
