//! What a reactor remembers: which waker belongs to which event source, and
//! which id the next source gets.
//!
//! Registering sources with the event queue and waiting for events are left
//! to the caller, who asks the reactor for the waker of each event.

use std::collections::HashMap;
use vstd::prelude::*;
use crate::executor::Waker;

verus! {

broadcast use vstd::std_specs::hash::group_hash_axioms;

/// The id after `id`. Ids wrap around at the end of their range.
pub open spec fn id_after(id: usize) -> usize {
    if id == usize::MAX {
        0
    } else {
        (id + 1) as usize
    }
}

/// The state of a reactor.
pub struct Reactor {
    /// The most recent waker of each event source, by the id of the source.
    pub wakers: HashMap<usize, Waker>,
    /// The id that the next event source gets.
    pub next_id: usize,
}

impl Reactor {
    /// A reactor that knows no waker. The first id it hands out is 1.
    pub fn new() -> (r: Self)
        ensures
            r.wakers@ == Map::<usize, Waker>::empty(),
            r.next_id == 1,
    {
        Reactor { wakers: HashMap::new(), next_id: 1 }
    }

    /// Stores `waker` as the waker of source `id`, in place of any waker
    /// stored for it before.
    pub fn set_waker(&mut self, waker: &Waker, id: usize)
        ensures
            final(self).wakers@ == old(self).wakers@.insert(id, *waker),
            final(self).next_id == old(self).next_id,
    {
        self.wakers.insert(id, *waker);
    }

    /// Forgets the waker of source `id`. Taking the source off the event
    /// queue is up to the caller.
    pub fn deregister(&mut self, id: usize)
        ensures
            final(self).wakers@ == old(self).wakers@.remove(id),
            final(self).next_id == old(self).next_id,
    {
        self.wakers.remove(&id);
    }

    /// Hands out an id for a new event source.
    pub fn next_id(&mut self) -> (id: usize)
        ensures
            id == old(self).next_id,
            final(self).next_id == id_after(id),
            final(self).wakers@ == old(self).wakers@,
    {
        let id = self.next_id;
        self.next_id = if id == usize::MAX {
            0
        } else {
            id + 1
        };
        id
    }

    /// The waker to use for an event on source `id`. There is none if the
    /// source has been deregistered in the meantime.
    pub fn waker_for(&self, id: usize) -> (waker: Option<Waker>)
        ensures
            waker == if self.wakers@.contains_key(id) {
                Some(self.wakers@[id])
            } else {
                None
            },
    {
        match self.wakers.get(&id) {
            Some(waker) => Some(*waker),
            None => None,
        }
    }
}

} // verus!
