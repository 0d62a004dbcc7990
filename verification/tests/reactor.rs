use learn_async_rust::executor::Waker;
use learn_async_rust::http::{Progress, ReadEvent};
use learn_async_rust::http_waker::{Http, HttpGetFuture};
use learn_async_rust::reactor::Reactor;

#[test]
fn reactor_hands_out_ids_from_one_and_none_twice() {
    let mut r = Reactor::new();
    assert!(r.wakers.is_empty());
    assert_eq!(r.next_id(), 1);
    assert_eq!(r.next_id(), 2);
    assert_eq!(r.next_id(), 3);
    assert_eq!(r.next_id, 4);
}

#[test]
fn next_id_wraps_around_at_the_end_of_its_range() {
    let mut r = Reactor::new();
    r.next_id = usize::MAX;
    assert_eq!(r.next_id(), usize::MAX);
    assert_eq!(r.next_id(), 0);
    assert_eq!(r.next_id(), 1);
}

#[test]
fn set_waker_keeps_the_most_recent_waker() {
    let mut r = Reactor::new();
    assert_eq!(r.waker_for(3), None);
    r.set_waker(&Waker { id: 10 }, 3);
    assert_eq!(r.waker_for(3), Some(Waker { id: 10 }));
    r.set_waker(&Waker { id: 11 }, 3);
    assert_eq!(r.waker_for(3), Some(Waker { id: 11 }));
    assert_eq!(r.wakers.len(), 1);
    assert_eq!(r.waker_for(4), None);
    assert_eq!(r.next_id, 1);
}

#[test]
fn deregister_forgets_the_waker() {
    let mut r = Reactor::new();
    r.set_waker(&Waker { id: 10 }, 3);
    r.set_waker(&Waker { id: 20 }, 4);
    r.deregister(3);
    assert_eq!(r.waker_for(3), None);
    assert_eq!(r.waker_for(4), Some(Waker { id: 20 }));
    r.deregister(3);
    assert_eq!(r.wakers.len(), 1);
}

#[test]
fn get_with_reactor_takes_a_fresh_id() {
    let mut r = Reactor::new();
    let a = Http::get("/600/HelloAsyncAwait".to_string(), &mut r);
    let b = HttpGetFuture::new("/400/HelloAsyncAwait", &mut r);
    assert_eq!(a.id, 1);
    assert_eq!(b.id, 2);
    assert_eq!(r.next_id, 3);
    assert_eq!(a.path, "/600/HelloAsyncAwait");
    assert_eq!(b.path, "/400/HelloAsyncAwait");
    assert!(a.needs_request());
    assert!(a.buffer.is_empty());
    assert!(r.wakers.is_empty());
}

#[test]
fn waiting_leaves_the_waker_with_the_reactor_and_finishing_takes_it_away() {
    let mut r = Reactor::new();
    let mut f = Http::get("/600/HelloAsyncAwait".to_string(), &mut r);
    assert_eq!(
        f.write_request(),
        "GET /600/HelloAsyncAwait HTTP/1.1\r\nHost: localhost\r\nConnection: close\r\n\r\n"
    );
    assert!(!f.needs_request());
    let first = Waker { id: 7 };
    let second = Waker { id: 8 };
    assert!(matches!(f.on_read(ReadEvent::WouldBlock, &first, &mut r), Progress::NotReady));
    assert_eq!(r.waker_for(1), Some(first));
    assert!(matches!(
        f.on_read(ReadEvent::Bytes(b"Hello".to_vec()), &second, &mut r),
        Progress::ReadAgain
    ));
    assert_eq!(r.waker_for(1), Some(first));
    assert!(matches!(f.on_read(ReadEvent::Interrupted, &second, &mut r), Progress::ReadAgain));
    assert!(matches!(f.on_read(ReadEvent::WouldBlock, &second, &mut r), Progress::NotReady));
    assert_eq!(r.waker_for(1), Some(second));
    assert!(matches!(
        f.on_read(ReadEvent::Bytes(b"AsyncAwait".to_vec()), &second, &mut r),
        Progress::ReadAgain
    ));
    match f.on_read(ReadEvent::Bytes(Vec::new()), &second, &mut r) {
        Progress::Ready(text) => assert_eq!(text, "HelloAsyncAwait"),
        _ => panic!("the task is done when the peer has closed"),
    }
    assert_eq!(r.waker_for(1), None);
    assert_eq!(f.buffer, b"HelloAsyncAwait".to_vec());
    assert_eq!(f.id, 1);
    assert_eq!(r.next_id, 2);
}

#[test]
fn response_with_invalid_bytes_is_decoded_with_replacement() {
    let mut r = Reactor::new();
    let mut f = Http::get("/0/x".to_string(), &mut r);
    f.write_request();
    let w = Waker { id: 0 };
    f.on_read(ReadEvent::Bytes(vec![0xf0, 0x28, b'!']), &w, &mut r);
    match f.on_read(ReadEvent::Bytes(Vec::new()), &w, &mut r) {
        Progress::Ready(text) => assert_eq!(text, "\u{fffd}(!"),
        _ => panic!("the task is done when the peer has closed"),
    }
}
