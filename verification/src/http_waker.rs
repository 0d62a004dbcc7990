//! The HTTP GET task for use with a reactor.
//!
//! The task works like the one in `http`, and in addition keeps the reactor
//! informed: whenever it has to wait it leaves its most recent waker with the
//! reactor, and when it is done it takes the waker away again.

use vstd::prelude::*;
use vstd::string::StringExecFns;
use crate::executor::Waker;
use crate::http::{get_req, lossy_text, request_text, utf8_lossy, Progress, ReadEvent};
use crate::reactor::{id_after, Reactor};

verus! {

/// Entry point for requests.
pub struct Http;

impl Http {
    /// A task that will get `path`, with a fresh id from `reactor`.
    pub fn get(path: String, reactor: &mut Reactor) -> (f: HttpGetFuture)
        ensures
            !f.requested,
            f.buffer@ == Seq::<u8>::empty(),
            f.path@ == path@,
            f.id == old(reactor).next_id,
            final(reactor).next_id == id_after(f.id),
            final(reactor).wakers@ == old(reactor).wakers@,
    {
        HttpGetFuture::new(path.as_str(), reactor)
    }
}

/// The state of one GET.
pub struct HttpGetFuture {
    /// Whether the request has been handed out for sending.
    pub requested: bool,
    /// The bytes received so far.
    pub buffer: Vec<u8>,
    /// The path to get.
    pub path: String,
    /// The id under which the reactor knows the connection.
    pub id: usize,
}

impl HttpGetFuture {
    /// A task that will get `path`, with a fresh id from `reactor`.
    pub fn new(path: &str, reactor: &mut Reactor) -> (f: Self)
        ensures
            !f.requested,
            f.buffer@ == Seq::<u8>::empty(),
            f.path@ == path@,
            f.id == old(reactor).next_id,
            final(reactor).next_id == id_after(f.id),
            final(reactor).wakers@ == old(reactor).wakers@,
    {
        let id = reactor.next_id();
        Self { requested: false, buffer: Vec::new(), path: String::from_str(path), id }
    }

    /// Whether the request still has to be sent.
    pub fn needs_request(&self) -> (b: bool)
        ensures
            b == !self.requested,
    {
        !self.requested
    }

    /// Hands out the request for the caller to write to a fresh connection,
    /// and notes that it has been sent.
    pub fn write_request(&mut self) -> (request: String)
        ensures
            request@ == request_text(old(self).path@),
            final(self).requested,
            final(self).buffer@ == old(self).buffer@,
            final(self).path@ == old(self).path@,
            final(self).id == old(self).id,
    {
        self.requested = true;
        get_req(self.path.as_str())
    }

    /// Takes in the outcome of a read. Bytes are appended to the buffer and
    /// more are asked for. An empty read ends the task with everything
    /// received, decoded as text, and removes the task's waker from the
    /// reactor. A read that would block ends the poll and leaves `waker`
    /// with the reactor. An interrupted read is tried again.
    pub fn on_read(&mut self, event: ReadEvent, waker: &Waker, reactor: &mut Reactor) -> (next:
        Progress)
        requires
            old(self).requested,
        ensures
            final(self).requested,
            final(self).path@ == old(self).path@,
            final(self).id == old(self).id,
            final(reactor).next_id == old(reactor).next_id,
            match event {
                ReadEvent::Bytes(bytes) => if bytes@.len() == 0 {
                    &&& final(self).buffer@ == old(self).buffer@
                    &&& next matches Progress::Ready(text)
                    &&& text@ == utf8_lossy(old(self).buffer@)
                    &&& final(reactor).wakers@ == old(reactor).wakers@.remove(old(self).id)
                } else {
                    &&& final(self).buffer@ == old(self).buffer@ + bytes@
                    &&& next is ReadAgain
                    &&& final(reactor).wakers@ == old(reactor).wakers@
                },
                ReadEvent::WouldBlock => {
                    &&& final(self).buffer@ == old(self).buffer@
                    &&& next is NotReady
                    &&& final(reactor).wakers@ == old(reactor).wakers@.insert(
                        old(self).id,
                        *waker,
                    )
                },
                ReadEvent::Interrupted => {
                    &&& final(self).buffer@ == old(self).buffer@
                    &&& next is ReadAgain
                    &&& final(reactor).wakers@ == old(reactor).wakers@
                },
            },
    {
        match event {
            ReadEvent::Bytes(bytes) => {
                if bytes.len() == 0 {
                    let text = lossy_text(&self.buffer);
                    reactor.deregister(self.id);
                    Progress::Ready(text)
                } else {
                    self.buffer.extend_from_slice(bytes.as_slice());
                    Progress::ReadAgain
                }
            },
            ReadEvent::WouldBlock => {
                reactor.set_waker(waker, self.id);
                Progress::NotReady
            },
            ReadEvent::Interrupted => Progress::ReadAgain,
        }
    }
}

} // verus!
