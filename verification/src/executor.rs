//! The bookkeeping of an executor: which tasks exist, which of them are due
//! for a poll, and which id the next task gets.
//!
//! Polling a task and putting the thread to sleep are left to the caller.
//! The executor says what to do next, and is told how a poll went.

use std::collections::HashMap;
use vstd::prelude::*;

verus! {

broadcast use vstd::std_specs::hash::group_hash_axioms;

/// The state of an executor.
pub struct ExecutorCore<T> {
    /// The top-level tasks that are not done, by id. A task that is being
    /// polled is taken out for the duration of the poll.
    pub tasks: HashMap<usize, T>,
    /// The ids of the tasks to poll. Wakers add to the back, and the
    /// executor takes from the back.
    pub ready_queue: Vec<usize>,
    /// The id that the next task gets. No id is handed out twice.
    pub next_id: usize,
}

impl<T> Default for ExecutorCore<T> {
    fn default() -> (core: Self)
        ensures
            core.tasks@ == Map::<usize, T>::empty(),
            core.ready_queue@ == Seq::<usize>::empty(),
            core.next_id == 0,
    {
        ExecutorCore { tasks: HashMap::new(), ready_queue: Vec::new(), next_id: 0 }
    }
}

/// Registers a new top-level task: gives it the next id, stores it, and
/// queues the id so that the task is polled at least once.
pub fn spawn<T>(core: &mut ExecutorCore<T>, future: T)
    requires
        old(core).next_id < usize::MAX,
    ensures
        final(core).tasks@ == old(core).tasks@.insert(old(core).next_id, future),
        final(core).ready_queue@ == old(core).ready_queue@.push(old(core).next_id),
        final(core).next_id == old(core).next_id + 1,
{
    let id = core.next_id;
    core.tasks.insert(id, future);
    core.ready_queue.push(id);
    core.next_id = id + 1;
}

/// Wakes one task: carries the id of the task it belongs to.
#[derive(Clone, Copy, Debug, PartialEq, Eq, Structural)]
pub struct Waker {
    /// The id of the task that this waker wakes.
    pub id: usize,
}

impl Waker {
    /// Marks the task as due for a poll by adding its id to the back of
    /// `ready_queue`. Rousing the executor's thread is up to the caller.
    pub fn wake(&self, ready_queue: &mut Vec<usize>)
        ensures
            final(ready_queue)@ == old(ready_queue)@.push(self.id),
    {
        ready_queue.push(self.id);
    }
}

/// What the executor does next.
pub enum Turn<T> {
    /// Poll the task given here, which has the id given here, and report
    /// the outcome with `settle`.
    Poll(usize, T),
    /// Nothing is due, and this many tasks are waiting: sleep until a
    /// waker has been used, then ask again.
    Park(usize),
    /// Nothing is due and no task is left.
    Finished,
}

/// Whether position `k` of `queue` holds the id that is due next: it names
/// a task, and no id behind it does.
pub open spec fn due_at<T>(queue: Seq<usize>, tasks: Map<usize, T>, k: int) -> bool {
    &&& 0 <= k < queue.len()
    &&& tasks.contains_key(queue[k])
    &&& forall|j: int| k < j < queue.len() ==> !tasks.contains_key(#[trigger] queue[j])
}

/// Whether no id of `queue` names a task.
pub open spec fn none_due<T>(queue: Seq<usize>, tasks: Map<usize, T>) -> bool {
    forall|j: int| 0 <= j < queue.len() ==> !tasks.contains_key(#[trigger] queue[j])
}

/// An executor.
pub struct Executor<T> {
    /// The state of the executor.
    pub core: ExecutorCore<T>,
}

impl<T> Executor<T> {
    /// An executor without tasks.
    pub fn new() -> (e: Self)
        ensures
            e.core.tasks@ == Map::<usize, T>::empty(),
            e.core.ready_queue@ == Seq::<usize>::empty(),
            e.core.next_id == 0,
    {
        Executor { core: ExecutorCore::default() }
    }

    /// Takes the id at the back of the ready queue, if there is one.
    pub fn pop_ready(&mut self) -> (id: Option<usize>)
        ensures
            final(self).core.tasks@ == old(self).core.tasks@,
            final(self).core.next_id == old(self).core.next_id,
            match id {
                Some(id) => {
                    &&& old(self).core.ready_queue@.len() > 0
                    &&& id == old(self).core.ready_queue@.last()
                    &&& final(self).core.ready_queue@ == old(self).core.ready_queue@.drop_last()
                },
                None => {
                    &&& old(self).core.ready_queue@.len() == 0
                    &&& final(self).core.ready_queue@ == old(self).core.ready_queue@
                },
            },
    {
        self.core.ready_queue.pop()
    }

    /// Takes the task with this id out of the executor, if there is one.
    pub fn get_future(&mut self, id: usize) -> (task: Option<T>)
        ensures
            final(self).core.tasks@ == old(self).core.tasks@.remove(id),
            final(self).core.ready_queue@ == old(self).core.ready_queue@,
            final(self).core.next_id == old(self).core.next_id,
            match task {
                Some(task) => old(self).core.tasks@.contains_key(id) && task == old(
                    self,
                ).core.tasks@[id],
                None => !old(self).core.tasks@.contains_key(id),
            },
    {
        self.core.tasks.remove(&id)
    }

    /// A waker for the task with this id.
    pub fn make_waker(&self, id: usize) -> (waker: Waker)
        ensures
            waker.id == id,
    {
        Waker { id }
    }

    /// Puts a task into the executor under this id, in place of any task
    /// that was there.
    pub fn insert_task(&mut self, id: usize, task: T)
        ensures
            final(self).core.tasks@ == old(self).core.tasks@.insert(id, task),
            final(self).core.ready_queue@ == old(self).core.ready_queue@,
            final(self).core.next_id == old(self).core.next_id,
    {
        self.core.tasks.insert(id, task);
    }

    /// The number of tasks that are not done.
    pub fn task_count(&self) -> (n: usize)
        ensures
            n == self.core.tasks@.len(),
    {
        self.core.tasks.len()
    }

    /// Decides what to do next. Ids are taken from the back of the ready
    /// queue until one names a task; ids that name none belong to tasks
    /// that are done and are dropped. The task is handed out to be polled.
    /// If the queue runs out, the executor is finished if no task is left,
    /// and has to sleep otherwise.
    pub fn next_turn(&mut self) -> (turn: Turn<T>)
        ensures
            final(self).core.next_id == old(self).core.next_id,
            match turn {
                Turn::Poll(id, task) => exists|k: int|
                    {
                        &&& due_at(old(self).core.ready_queue@, old(self).core.tasks@, k)
                        &&& id == old(self).core.ready_queue@[k]
                        &&& task == old(self).core.tasks@[id]
                        &&& final(self).core.ready_queue@ == old(self).core.ready_queue@.take(k)
                        &&& final(self).core.tasks@ == old(self).core.tasks@.remove(id)
                    },
                Turn::Park(n) => {
                    &&& none_due(old(self).core.ready_queue@, old(self).core.tasks@)
                    &&& final(self).core.ready_queue@ == Seq::<usize>::empty()
                    &&& final(self).core.tasks@ == old(self).core.tasks@
                    &&& n == old(self).core.tasks@.len()
                    &&& n > 0
                },
                Turn::Finished => {
                    &&& none_due(old(self).core.ready_queue@, old(self).core.tasks@)
                    &&& final(self).core.ready_queue@ == Seq::<usize>::empty()
                    &&& final(self).core.tasks@ == old(self).core.tasks@
                    &&& old(self).core.tasks@.len() == 0
                },
            },
    {
        let ghost queue = self.core.ready_queue@;
        let ghost tasks = self.core.tasks@;
        loop
            invariant
                self.core.next_id == old(self).core.next_id,
                queue == old(self).core.ready_queue@,
                tasks == old(self).core.tasks@,
                self.core.tasks@ == tasks,
                self.core.ready_queue@.len() <= queue.len(),
                self.core.ready_queue@ == queue.take(self.core.ready_queue@.len() as int),
                forall|j: int|
                    self.core.ready_queue@.len() <= j < queue.len() ==> !tasks.contains_key(
                        #[trigger] queue[j],
                    ),
            decreases self.core.ready_queue@.len(),
        {
            match self.pop_ready() {
                Some(id) => {
                    let ghost k = self.core.ready_queue@.len() as int;
                    assert(self.core.ready_queue@ =~= queue.take(k));
                    assert(id == queue[k]);
                    match self.get_future(id) {
                        Some(task) => {
                            assert(due_at(queue, tasks, k));
                            return Turn::Poll(id, task);
                        },
                        None => {
                            assert(self.core.tasks@ =~= tasks);
                        },
                    }
                },
                None => {
                    assert(self.core.ready_queue@ =~= Seq::<usize>::empty());
                    let n = self.task_count();
                    if n > 0 {
                        return Turn::Park(n);
                    } else {
                        return Turn::Finished;
                    }
                },
            }
        }
    }

    /// Takes in the outcome of the poll of a task handed out by
    /// `next_turn`. A task that is not done goes back under its id. A task
    /// that is done is dropped.
    pub fn settle(&mut self, id: usize, task: T, done: bool)
        ensures
            final(self).core.ready_queue@ == old(self).core.ready_queue@,
            final(self).core.next_id == old(self).core.next_id,
            final(self).core.tasks@ == if done {
                old(self).core.tasks@
            } else {
                old(self).core.tasks@.insert(id, task)
            },
    {
        if !done {
            self.insert_task(id, task);
        }
    }
}

} // verus!
