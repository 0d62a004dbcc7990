//! Setting up a reactor together with an executor.

use vstd::prelude::*;
use crate::executor::{Executor, Waker};
use crate::reactor::Reactor;

verus! {

/// A reactor that knows no waker and an executor without tasks. Starting
/// the reactor's event loop is up to the caller.
pub fn init<T>() -> (r: (Reactor, Executor<T>))
    ensures
        r.0.wakers@ == Map::<usize, Waker>::empty(),
        r.0.next_id == 1,
        r.1.core.tasks@ == Map::<usize, T>::empty(),
        r.1.core.ready_queue@ == Seq::<usize>::empty(),
        r.1.core.next_id == 0,
{
    (Reactor::new(), Executor::new())
}

} // verus!
