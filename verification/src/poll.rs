//! The plain values that go into and come out of an edge-triggered event
//! queue.
//!
//! The system calls themselves are made by the caller. This module decides
//! what is handed to them and what their results mean.

use std::collections::HashSet;
use vstd::prelude::*;
use crate::http::ReadEvent;

verus! {

broadcast use vstd::std_specs::hash::group_hash_axioms;

/// The operation that adds a source to an event queue.
pub const EPOLL_CTL_ADD: i32 = 1;

/// Interest in a source becoming readable.
pub const EPOLLIN: i32 = 0x1;

/// Edge-triggered notification: an event is reported when the state of a
/// source changes, not for as long as it lasts.
pub const EPOLLET: i32 = -0x8000_0000;

/// One-shot notification: after one event the source is disabled.
pub const EPOLLONESHOT: i32 = 0x4000_0000;

/// The timeout that means waiting without limit.
pub const NO_TIMEOUT: i32 = -1;

/// Which notifications a bitmask asks for.
#[derive(Clone, Copy, Debug, PartialEq, Eq, Structural)]
pub struct Interests {
    /// The bit of `EPOLLIN` is set.
    pub read: bool,
    /// The bit of `EPOLLET` is set.
    pub edge_triggered: bool,
    /// The bit of `EPOLLONESHOT` is set.
    pub oneshot: bool,
}

/// Reads the notifications that `bitmask` asks for.
pub fn check(bitmask: i32) -> (found: Interests)
    ensures
        found.read == (bitmask & EPOLLIN != 0),
        found.edge_triggered == (bitmask & EPOLLET != 0),
        found.oneshot == (bitmask & EPOLLONESHOT != 0),
{
    Interests {
        read: bitmask & EPOLLIN != 0,
        edge_triggered: bitmask & EPOLLET != 0,
        oneshot: bitmask & EPOLLONESHOT != 0,
    }
}

/// An event as the queue reports it, and as it is handed to the queue when
/// a source is registered.
#[derive(Clone, Copy, Debug, PartialEq, Eq, Structural)]
pub struct Event {
    /// The notifications asked for, or the ones that occurred.
    pub events: u32,
    /// The token that the source was registered with.
    pub epoll_data: usize,
}

impl Event {
    /// The token that the source of the event was registered with.
    pub fn token(&self) -> (token: usize)
        ensures
            token == self.epoll_data,
    {
        self.epoll_data
    }
}

/// A handle through which sources are registered with an event queue.
pub struct Registry {
    /// The file descriptor of the event queue.
    pub raw_fd: i32,
}

impl Registry {
    /// The event to hand to the queue, together with `EPOLL_CTL_ADD`, to
    /// register a source under `token` for the notifications in
    /// `interests`.
    pub fn registration(&self, token: usize, interests: i32) -> (event: Event)
        ensures
            event.events == interests as u32,
            event.epoll_data == token,
    {
        Event { events: #[verifier::truncate] (interests as u32), epoll_data: token }
    }
}

/// An event queue.
pub struct Poll {
    registry: Registry,
}

impl Poll {
    /// The event queue behind the result of the system call that creates
    /// one: a file descriptor, or a negative number if the call failed.
    pub fn from_descriptor(res: i32) -> (poll: Option<Self>)
        ensures
            poll is Some <==> res >= 0,
            poll matches Some(p) ==> p.fd() == res,
    {
        if res < 0 {
            None
        } else {
            Some(Self { registry: Registry { raw_fd: res } })
        }
    }

    /// The file descriptor of the queue.
    pub closed spec fn fd(&self) -> i32 {
        self.registry.raw_fd
    }

    /// The handle through which sources are registered.
    pub fn registry(&self) -> (registry: &Registry)
        ensures
            registry.raw_fd == self.fd(),
    {
        &self.registry
    }

    /// What to hand to the system call that waits for events: the file
    /// descriptor, the number of events that fit into a buffer with room
    /// for `capacity` of them, and the timeout in milliseconds, which is
    /// `NO_TIMEOUT` if none is given.
    pub fn wait_arguments(&self, capacity: usize, timeout: Option<i32>) -> (args: (i32, i32, i32))
        ensures
            args.0 == self.fd(),
            args.1 == capacity as i32,
            args.2 == match timeout {
                Some(t) => t,
                None => NO_TIMEOUT,
            },
    {
        let max_events: i32 = #[verifier::truncate] (capacity as i32);
        let timeout: i32 = match timeout {
            Some(t) => t,
            None => NO_TIMEOUT,
        };
        (self.registry.raw_fd, max_events, timeout)
    }

    /// The number of events that a wait has put into the buffer, from the
    /// result of the system call; none if the call failed.
    pub fn ready_events(res: i32) -> (count: Option<usize>)
        ensures
            count == if res < 0 {
                None
            } else {
                Some(res as usize)
            },
    {
        if res < 0 {
            None
        } else {
            Some(res as usize)
        }
    }
}

/// What to do with a source after a read.
#[derive(Clone, Copy, Debug, PartialEq, Eq, Structural)]
pub enum Drained {
    /// There may be more to read: read again.
    More,
    /// Stop reading for now. The flag says whether the source has been
    /// read to its end for the first time.
    Done(bool),
}

/// Takes in the outcome of a read from the source with token `index`, while
/// the sources in `handled` have been read to their end. With an
/// edge-triggered queue a source is read until nothing is left. An empty
/// read means that the end is reached: the source is added to `handled`.
pub fn handle_read(handled: &mut HashSet<usize>, index: usize, event: &ReadEvent) -> (next:
    Drained)
    ensures
        match *event {
            ReadEvent::Bytes(bytes) => if bytes@.len() == 0 {
                &&& final(handled)@ == old(handled)@.insert(index)
                &&& next == Drained::Done(!old(handled)@.contains(index))
            } else {
                &&& final(handled)@ == old(handled)@
                &&& next == Drained::More
            },
            ReadEvent::WouldBlock | ReadEvent::Interrupted => {
                &&& final(handled)@ == old(handled)@
                &&& next == Drained::Done(false)
            },
        },
{
    match event {
        ReadEvent::Bytes(bytes) => {
            if bytes.len() == 0 {
                let fresh = handled.insert(index);
                Drained::Done(fresh)
            } else {
                Drained::More
            }
        },
        ReadEvent::WouldBlock => Drained::Done(false),
        ReadEvent::Interrupted => Drained::Done(false),
    }
}

} // verus!
