//! Tasks that are driven by polling, and a task that waits for many.

use vstd::prelude::*;

verus! {

/// A task that makes progress each time it is polled.
pub trait Future {
    /// What the task produces once it is done.
    type Output;

    /// What has to hold of the task between polls: nothing, unless an
    /// implementation says otherwise. A poll may rely on it and has to
    /// restore it.
    open spec fn inv(&self) -> bool {
        true
    }

    /// Lets the task make progress. The result is `Ready` with the task's
    /// output once the task is done, and `NotReady` as long as it has to
    /// wait for something.
    fn poll(&mut self) -> (r: PollState<Self::Output>)
        requires
            old(self).inv(),
        ensures
            final(self).inv(),
    ;
}

/// What a poll found.
pub enum PollState<T> {
    /// The task is done and this is its output.
    Ready(T),
    /// The task has to be polled again later.
    NotReady,
}

impl<T> PollState<T> {
    /// Whether the poll found the task done.
    pub fn is_ready(&self) -> (b: bool)
        ensures
            b == (self is Ready),
    {
        match self {
            PollState::Ready(_) => true,
            PollState::NotReady => false,
        }
    }
}

/// A task that is done when all of its children are. Each child is paired
/// with a flag that is set once the child has been found done.
pub struct JoinAll<F: Future> {
    pub futures: Vec<(bool, F)>,
    pub finished_count: usize,
}

/// The number of flags that are set.
pub open spec fn count_set(flags: Seq<bool>) -> nat
    decreases flags.len(),
{
    if flags.len() == 0 {
        0
    } else {
        count_set(flags.drop_last()) + if flags.last() {
            1nat
        } else {
            0nat
        }
    }
}

/// No more flags are set than there are flags, and all are set exactly if
/// the two numbers agree.
pub proof fn lemma_count_set_bounds(flags: Seq<bool>)
    ensures
        count_set(flags) <= flags.len(),
        count_set(flags) == flags.len() <==> forall|i: int| 0 <= i < flags.len() ==> flags[i],
    decreases flags.len(),
{
    if flags.len() > 0 {
        let front = flags.drop_last();
        lemma_count_set_bounds(front);
        if count_set(flags) == flags.len() {
            assert forall|i: int| 0 <= i < flags.len() implies flags[i] by {
                if i < front.len() {
                    assert(front[i] == flags[i]);
                }
            }
        }
        if forall|i: int| 0 <= i < flags.len() ==> flags[i] {
            assert forall|i: int| 0 <= i < front.len() implies front[i] by {
                assert(front[i] == flags[i]);
            }
        }
    }
}

/// Setting a flag that was not set raises the number of set flags by one.
pub proof fn lemma_count_set_update(flags: Seq<bool>, i: int)
    requires
        0 <= i < flags.len(),
        !flags[i],
    ensures
        count_set(flags.update(i, true)) == count_set(flags) + 1,
    decreases flags.len(),
{
    let after = flags.update(i, true);
    if i == flags.len() - 1 {
        assert(after.drop_last() =~= flags.drop_last());
    } else {
        lemma_count_set_update(flags.drop_last(), i);
        assert(after.drop_last() =~= flags.drop_last().update(i, true));
    }
}

/// No flag of a sequence of cleared flags is set.
pub proof fn lemma_count_set_none(flags: Seq<bool>)
    requires
        forall|i: int| 0 <= i < flags.len() ==> !flags[i],
    ensures
        count_set(flags) == 0,
    decreases flags.len(),
{
    if flags.len() > 0 {
        let front = flags.drop_last();
        assert forall|i: int| 0 <= i < front.len() implies !front[i] by {
            assert(front[i] == flags[i]);
        }
        lemma_count_set_none(front);
    }
}

impl<F: Future> JoinAll<F> {
    /// The flags of the children, in order.
    pub open spec fn flags(&self) -> Seq<bool> {
        Seq::new(self.futures@.len(), |i: int| self.futures@[i].0)
    }

    /// The children, in order.
    pub open spec fn children(&self) -> Seq<F> {
        Seq::new(self.futures@.len(), |i:int| self.futures@[i].1)
    }

    /// Whether every child has been found done.
    pub open spec fn all_finished(&self) -> bool {
        forall|i: int| 0 <= i < self.futures@.len() ==> self.futures@[i].0
    }

    /// The counter agrees with the flags, and every child is fit to be
    /// polled.
    pub open spec fn wf(&self) -> bool {
        &&& self.finished_count == count_set(self.flags())
        &&& forall|i: int| 0 <= i < self.futures@.len() ==> (#[trigger] self.futures@[i]).1.inv()
    }

    /// Records what a poll of child `i` found: if the child was done, its
    /// flag is set and it is counted.
    pub fn settle(&mut self, i: usize, done: bool)
        requires
            old(self).wf(),
            i < old(self).futures@.len(),
            !old(self).futures@[i as int].0,
        ensures
            final(self).wf(),
            final(self).futures@ == old(self).futures@.update(
                i as int,
                (done, old(self).futures@[i as int].1),
            ),
            final(self).finished_count == old(self).finished_count + if done {
                1int
            } else {
                0int
            },
    {
        if done {
            proof {
                lemma_count_set_update(self.flags(), i as int);
                lemma_count_set_bounds(self.flags().update(i as int, true));
            }
            let n = self.futures.len();
            assert(self.finished_count < n);
            self.finished_count += 1;
            self.futures[i].0 = true;
            assert(self.flags() =~= old(self).flags().update(i as int, true));
        }
        assert(self.futures@ =~= old(self).futures@.update(
            i as int,
            (done, old(self).futures@[i as int].1),
        ));
    }

    /// What a poll reports, given the flags as they stand:
    /// `Ready` with an empty text exactly if every child has been found
    /// done.
    pub fn status(&self) -> (r: PollState<String>)
        requires
            self.wf(),
        ensures
            r is Ready <==> self.all_finished(),
            r matches PollState::Ready(text) ==> text@ == Seq::<char>::empty(),
    {
        proof {
            lemma_count_set_bounds(self.flags());
            if self.all_finished() {
                assert forall|i: int| 0 <= i < self.flags().len() implies self.flags()[i] by {}
            }
            if forall|i: int| 0 <= i < self.flags().len() ==> self.flags()[i] {
                assert forall|i: int| 0 <= i < self.futures@.len() implies self.futures@[i].0 by {
                    assert(self.flags()[i]);
                }
            }
        }
        if self.finished_count == self.futures.len() {
            PollState::Ready(String::new())
        } else {
            PollState::NotReady
        }
    }
}

/// A task that is done when all of `futures` are. No child counts as done
/// before it has been polled.
pub fn join_all<F: Future>(futures: Vec<F>) -> (all: JoinAll<F>)
    requires
        forall|i: int| 0 <= i < futures@.len() ==> (#[trigger] futures@[i]).inv(),
    ensures
        all.wf(),
        all.children() == futures@,
        all.flags() == Seq::new(futures@.len(), |i: int| false),
        all.finished_count == 0,
{
    let ghost given = futures@;
    let mut paired: Vec<(bool, F)> = Vec::new();
    for f in it: futures
        invariant
            it.seq() == given,
            paired@.len() == it.index(),
            forall|i: int| 0 <= i < paired@.len() ==> (#[trigger] paired@[i]) == (false, given[i]),
    {
        paired.push((false, f));
    }
    let all = JoinAll { futures: paired, finished_count: 0 };
    proof {
        lemma_count_set_none(all.flags());
        assert(all.children() =~= given);
        assert(all.flags() =~= Seq::new(given.len(), |i: int| false));
    }
    all
}

impl<F: Future> Future for JoinAll<F> {
    type Output = String;

    open spec fn inv(&self) -> bool {
        self.wf()
    }

    /// Polls, in order, every child that has not been found done, and
    /// records the ones that now are. Children found done earlier are left
    /// alone. The result is `Ready` with an empty text exactly if every
    /// child has been found done by the end of the poll.
    fn poll(&mut self) -> (r: PollState<String>)
        ensures
            final(self).futures@.len() == old(self).futures@.len(),
            forall|i: int|
                0 <= i < old(self).futures@.len() && old(self).futures@[i].0
                    ==> final(self).futures@[i] == old(self).futures@[i],
            final(self).finished_count >= old(self).finished_count,
            r is Ready <==> final(self).all_finished(),
            r matches PollState::Ready(text) ==> text@ == Seq::<char>::empty(),
    {
        let n = self.futures.len();
        let mut i: usize = 0;
        while i < n
            invariant
                i <= n,
                n == self.futures@.len(),
                n == old(self).futures@.len(),
                self.wf(),
                self.finished_count >= old(self).finished_count,
                forall|j: int|
                    0 <= j < n && old(self).futures@[j].0
                        ==> self.futures@[j] == old(self).futures@[j],
                forall|j: int| i <= j < n ==> self.futures@[j] == old(self).futures@[j],
            decreases n - i,
        {
            if !self.futures[i].0 {
                let ghost flags = self.flags();
                let found = self.futures[i].1.poll();
                assert(self.flags() =~= flags);
                let done = found.is_ready();
                self.settle(i, done);
            }
            i = i + 1;
        }
        self.status()
    }
}

} // verus!
