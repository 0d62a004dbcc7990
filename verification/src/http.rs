//! A leaf task that performs one HTTP GET.
//!
//! The task owns no socket. Its caller connects, writes and reads, and
//! tells the task what each read gave; the task keeps the bytes received so
//! far and decides whether to read again, to wait, or to finish.

use vstd::prelude::*;
use vstd::string::StringExecFns;

verus! {

/// Entry point for requests.
pub struct Http;

impl Http {
    /// A task that will get `path`. Nothing is sent before the task is
    /// first polled.
    pub fn get(path: &str) -> (f: HttpGetFuture)
        ensures
            !f.requested,
            f.buffer@ == Seq::<u8>::empty(),
            f.path@ == path@,
    {
        HttpGetFuture::new(path)
    }
}

/// What a non-blocking read from the connection gave.
pub enum ReadEvent {
    /// The read returned these bytes. No bytes means that the peer has
    /// closed the connection.
    Bytes(Vec<u8>),
    /// Nothing can be read without blocking.
    WouldBlock,
    /// The read was interrupted by a signal.
    Interrupted,
}

/// What the task needs after a read.
pub enum Progress {
    /// Read from the connection again and report the outcome.
    ReadAgain,
    /// End the poll; the task is not done.
    NotReady,
    /// End the poll; the task is done and this is the response.
    Ready(String),
}

/// The text that `String::from_utf8_lossy` makes of a byte sequence.
pub uninterp spec fn utf8_lossy(bytes: Seq<u8>) -> Seq<char>;

/// Decodes `bytes` as UTF-8, replacing what is not valid UTF-8.
///
/// Calls `String::from_utf8_lossy`. The contract gives the result a name
/// and claims nothing else of it: the call reads nothing but its argument.
#[verifier::external_body]
pub(crate) fn lossy_text(bytes: &Vec<u8>) -> (text: String)
    ensures
        text@ == utf8_lossy(bytes@),
{
    String::from_utf8_lossy(bytes).into_owned()
}

/// The state of one GET.
pub struct HttpGetFuture {
    /// Whether the request has been handed out for sending.
    pub requested: bool,
    /// The bytes received so far.
    pub buffer: Vec<u8>,
    /// The path to get.
    pub path: String,
}

impl HttpGetFuture {
    /// A task that will get `path`.
    pub fn new(path: &str) -> (f: Self)
        ensures
            !f.requested,
            f.buffer@ == Seq::<u8>::empty(),
            f.path@ == path@,
    {
        Self { requested: false, buffer: Vec::new(), path: String::from_str(path) }
    }

    /// Whether the request still has to be sent, which is the case until
    /// `write_request` has been called.
    pub fn needs_request(&self) -> (b: bool)
        ensures
            b == !self.requested,
    {
        !self.requested
    }

    /// Hands out the request for the caller to write to a fresh connection,
    /// and notes that it has been sent.
    pub fn write_request(&mut self) -> (request: String)
        ensures
            request@ == request_text(old(self).path@),
            final(self).requested,
            final(self).buffer@ == old(self).buffer@,
            final(self).path@ == old(self).path@,
    {
        self.requested = true;
        get_req(self.path.as_str())
    }

    /// Takes in the outcome of a read. Bytes are appended to the buffer and
    /// more are asked for. An empty read ends the task with everything
    /// received, decoded as text. A read that would block ends the poll.
    /// An interrupted read is tried again.
    pub fn on_read(&mut self, event: ReadEvent) -> (next: Progress)
        requires
            old(self).requested,
        ensures
            final(self).requested,
            final(self).path@ == old(self).path@,
            match event {
                ReadEvent::Bytes(bytes) => if bytes@.len() == 0 {
                    &&& final(self).buffer@ == old(self).buffer@
                    &&& next matches Progress::Ready(text)
                    &&& text@ == utf8_lossy(old(self).buffer@)
                } else {
                    &&& final(self).buffer@ == old(self).buffer@ + bytes@
                    &&& next is ReadAgain
                },
                ReadEvent::WouldBlock => {
                    &&& final(self).buffer@ == old(self).buffer@
                    &&& next is NotReady
                },
                ReadEvent::Interrupted => {
                    &&& final(self).buffer@ == old(self).buffer@
                    &&& next is ReadAgain
                },
            },
    {
        match event {
            ReadEvent::Bytes(bytes) => {
                if bytes.len() == 0 {
                    Progress::Ready(lossy_text(&self.buffer))
                } else {
                    self.buffer.extend_from_slice(bytes.as_slice());
                    Progress::ReadAgain
                }
            },
            ReadEvent::WouldBlock => Progress::NotReady,
            ReadEvent::Interrupted => Progress::ReadAgain,
        }
    }
}

/// The request for `path`: a GET over HTTP/1.1 to `localhost` that asks the
/// server to close the connection after the response.
pub open spec fn request_text(path: Seq<char>) -> Seq<char> {
    "GET "@ + path + " HTTP/1.1\r\nHost: localhost\r\nConnection: close\r\n\r\n"@
}

/// Builds the request for `path`.
pub fn get_req(path: &str) -> (request: String)
    ensures
        request@ == request_text(path@),
{
    let mut request = String::from_str("GET ");
    request.append(path);
    request.append(" HTTP/1.1\r\nHost: localhost\r\nConnection: close\r\n\r\n");
    request
}

} // verus!
