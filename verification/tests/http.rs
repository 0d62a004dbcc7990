use learn_async_rust::http::{get_req, Http, HttpGetFuture, Progress, ReadEvent};

#[test]
fn get_req_builds_the_request_text() {
    assert_eq!(
        get_req("/600/HelloWorld1"),
        "GET /600/HelloWorld1 HTTP/1.1\r\nHost: localhost\r\nConnection: close\r\n\r\n"
    );
    assert_eq!(get_req(""), "GET  HTTP/1.1\r\nHost: localhost\r\nConnection: close\r\n\r\n");
}

#[test]
fn get_starts_with_nothing_sent_and_nothing_received() {
    let f = Http::get("/1000/request-0");
    assert!(f.needs_request());
    assert!(!f.requested);
    assert!(f.buffer.is_empty());
    assert_eq!(f.path, "/1000/request-0");
    let g = HttpGetFuture::new("/x");
    assert!(g.needs_request());
    assert_eq!(g.path, "/x");
}

#[test]
fn write_request_hands_out_the_request_once() {
    let mut f = Http::get("/400/HelloWorld2");
    let request = f.write_request();
    assert_eq!(
        request,
        "GET /400/HelloWorld2 HTTP/1.1\r\nHost: localhost\r\nConnection: close\r\n\r\n"
    );
    assert!(!f.needs_request());
    assert!(f.buffer.is_empty());
    assert_eq!(f.path, "/400/HelloWorld2");
}

#[test]
fn reads_accumulate_until_the_peer_closes() {
    let mut f = Http::get("/0/hello");
    f.write_request();
    assert!(matches!(f.on_read(ReadEvent::WouldBlock), Progress::NotReady));
    assert!(f.buffer.is_empty());
    assert!(matches!(f.on_read(ReadEvent::Bytes(b"HTTP/1.1 200 OK\r\n".to_vec())), Progress::ReadAgain));
    assert!(matches!(f.on_read(ReadEvent::Interrupted), Progress::ReadAgain));
    assert!(matches!(f.on_read(ReadEvent::Bytes(b"\r\nhello".to_vec())), Progress::ReadAgain));
    assert!(matches!(f.on_read(ReadEvent::WouldBlock), Progress::NotReady));
    assert_eq!(f.buffer, b"HTTP/1.1 200 OK\r\n\r\nhello".to_vec());
    match f.on_read(ReadEvent::Bytes(Vec::new())) {
        Progress::Ready(text) => assert_eq!(text, "HTTP/1.1 200 OK\r\n\r\nhello"),
        _ => panic!("the task is done when the peer has closed"),
    }
    assert_eq!(f.buffer, b"HTTP/1.1 200 OK\r\n\r\nhello".to_vec());
}

#[test]
fn response_that_is_not_utf8_is_decoded_with_replacement() {
    let mut f = Http::get("/0/bytes");
    f.write_request();
    f.on_read(ReadEvent::Bytes(vec![b'a', 0xff, b'b', 0xc3]));
    match f.on_read(ReadEvent::Bytes(Vec::new())) {
        Progress::Ready(text) => assert_eq!(text, "a\u{fffd}b\u{fffd}"),
        _ => panic!("the task is done when the peer has closed"),
    }
}

#[test]
fn closing_before_any_byte_gives_an_empty_response() {
    let mut f = Http::get("/0/none");
    f.write_request();
    match f.on_read(ReadEvent::Bytes(Vec::new())) {
        Progress::Ready(text) => assert_eq!(text, ""),
        _ => panic!("the task is done when the peer has closed"),
    }
}
