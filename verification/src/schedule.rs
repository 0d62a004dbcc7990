//! The scheduling rule, as mathematics.
//!
//! A pool is a sequence of fiber states and the index of the current fiber.
//! Everything the scheduler decides is a function of that pair: which fiber
//! a spawn claims, which fiber runs next, and what the pool looks like after
//! a yield or after a body has returned.

use vstd::prelude::*;
use crate::state::State;

verus! {

/// The states of all fibers of a scheduler, in pool order, and the index of
/// the fiber that is executing. Index 0 is the base fiber: the thread of
/// control that the program started with.
#[verifier::ext_equal]
pub struct Pool {
    pub states: Seq<State>,
    pub current: int,
}

/// The state a fiber is left in when another one takes over: a fiber that
/// has finished stays `Available`, any other becomes `Ready`.
pub open spec fn stepped_aside(s: State) -> State {
    if s == State::Available {
        State::Available
    } else {
        State::Ready
    }
}

/// The lifecycle of a fiber: whether one event may take a fiber from state
/// `from` to state `to`. A free fiber can be claimed by a spawn; a ready
/// fiber can be picked to run; a running fiber can give way or finish.
pub open spec fn may_become(from: State, to: State) -> bool {
    ||| to == from
    ||| from == State::Available && to == State::Ready
    ||| from == State::Ready && to == State::Running
    ||| from == State::Running && to == State::Ready
    ||| from == State::Running && to == State::Available
}

impl Pool {
    /// A pool of `n` fibers in which nothing has been spawned: the base is
    /// running and every other fiber is free.
    pub open spec fn fresh(n: nat) -> Pool {
        Pool {
            states: Seq::new(
                n,
                |i: int|
                    if i == 0 {
                        State::Running
                    } else {
                        State::Available
                    },
            ),
            current: 0,
        }
    }

    /// Number of fibers in the pool.
    pub open spec fn len(self) -> int {
        self.states.len() as int
    }

    /// The current index names a fiber of the pool.
    pub open spec fn inv(self) -> bool {
        0 <= self.current < self.len()
    }

    /// The scheduling invariant: the current fiber is the one and only
    /// running fiber, and the base fiber is never free.
    pub open spec fn wf(self) -> bool {
        &&& self.inv()
        &&& self.states[self.current] == State::Running
        &&& forall|i: int|
            0 <= i < self.len() && i != self.current ==> self.states[i] != State::Running
        &&& self.states[0] != State::Available
    }

    /// Whether fiber `i` is the first free fiber of the pool.
    pub open spec fn first_available(self, i: int) -> bool {
        &&& 0 <= i < self.len()
        &&& self.states[i] == State::Available
        &&& forall|j: int| 0 <= j < i ==> self.states[j] != State::Available
    }

    /// Whether any fiber is free.
    pub open spec fn has_available(self) -> bool {
        exists|i: int| 0 <= i < self.len() && self.states[i] == State::Available
    }

    /// The pool after a body has been spawned onto fiber `i`.
    pub open spec fn claim(self, i: int) -> Pool {
        Pool { states: self.states.update(i, State::Ready), current: self.current }
    }

    /// The index `d` places after the current one, wrapping at the end of
    /// the pool.
    pub open spec fn slot(self, d: int) -> int {
        if self.current + d < self.len() {
            self.current + d
        } else {
            self.current + d - self.len()
        }
    }

    /// How many places after the current fiber index `i` lies, wrapping at
    /// the end of the pool.
    pub open spec fn distance(self, i: int) -> int {
        if i >= self.current {
            i - self.current
        } else {
            i - self.current + self.len()
        }
    }

    /// Whether the fiber `d` places after the current one is ready and none
    /// of the fibers between them is.
    pub open spec fn first_ready_at(self, d: int) -> bool {
        &&& 1 <= d < self.len()
        &&& self.states[self.slot(d)] == State::Ready
        &&& forall|e: int| 1 <= e < d ==> self.states[#[trigger] self.slot(e)] != State::Ready
    }

    /// Whether a fiber other than the current one is ready.
    pub open spec fn has_ready(self) -> bool {
        exists|i: int| 0 <= i < self.len() && i != self.current && self.states[i] == State::Ready
    }

    /// The fiber that runs next: the first ready one in cyclic order
    /// starting just after the current fiber. Meaningful only if
    /// `has_ready`.
    pub open spec fn next_ready(self) -> int {
        self.slot(choose|d: int| self.first_ready_at(d))
    }

    /// The pool after the current fiber has offered to give way. If no
    /// other fiber is ready nothing changes. Otherwise the current fiber
    /// steps aside and the next ready fiber becomes the running one.
    pub open spec fn tick(self) -> Pool {
        if self.has_ready() {
            Pool {
                states: self.states.update(
                    self.current,
                    stepped_aside(self.states[self.current]),
                ).update(self.next_ready(), State::Running),
                current: self.next_ready(),
            }
        } else {
            self
        }
    }

    /// The pool in which the current fiber has been marked free.
    pub open spec fn release(self) -> Pool {
        Pool { states: self.states.update(self.current, State::Available), current: self.current }
    }

    /// The pool after the body of the current fiber has returned. The base
    /// fiber is left alone; any other fiber is freed and gives way.
    pub open spec fn finish(self) -> Pool {
        if self.current == 0 {
            self
        } else {
            self.release().tick()
        }
    }

    /// In a fresh pool the invariant holds and no fiber is ready.
    pub proof fn lemma_fresh(n: nat)
        requires
            n >= 1,
        ensures
            Pool::fresh(n).wf(),
            Pool::fresh(n).len() == n,
            !Pool::fresh(n).has_ready(),
            Pool::fresh(n).tick() == Pool::fresh(n),
    {
    }

    /// Every fiber other than the current one lies a definite number of
    /// places after it, and `slot` and `distance` undo each other.
    pub proof fn lemma_slot_distance(self, i: int)
        requires
            self.inv(),
            0 <= i < self.len(),
            i != self.current,
        ensures
            1 <= self.distance(i) < self.len(),
            self.slot(self.distance(i)) == i,
    {
    }

    /// An offset between one and the pool size names a fiber other than the
    /// current one.
    pub proof fn lemma_slot_in_range(self, d: int)
        requires
            self.inv(),
            1 <= d < self.len(),
        ensures
            0 <= self.slot(d) < self.len(),
            self.slot(d) != self.current,
            self.distance(self.slot(d)) == d,
    {
    }

    /// If some other fiber is ready, one of them comes first.
    pub proof fn lemma_ready_has_first(self)
        requires
            self.inv(),
            self.has_ready(),
        ensures
            exists|d: int| self.first_ready_at(d),
    {
        let i = choose|i: int|
            0 <= i < self.len() && i != self.current && self.states[i] == State::Ready;
        self.lemma_slot_distance(i);
        self.lemma_first_up_to(self.distance(i));
    }

    /// If the fiber `d` places on is ready, the first ready fiber lies at
    /// most `d` places on.
    proof fn lemma_first_up_to(self, d: int)
        requires
            self.inv(),
            1 <= d < self.len(),
            self.states[self.slot(d)] == State::Ready,
        ensures
            exists|f: int| 1 <= f <= d && self.first_ready_at(f),
        decreases d,
    {
        if forall|e: int| 1 <= e < d ==> self.states[#[trigger] self.slot(e)] != State::Ready {
            assert(self.first_ready_at(d));
        } else {
            let e = choose|e: int| 1 <= e < d && self.states[#[trigger] self.slot(e)] == State::Ready;
            self.lemma_first_up_to(e);
        }
    }

    /// The first ready fiber is unique: if fiber `d` places on is the first
    /// ready one, it is the one that runs next.
    pub proof fn lemma_next_ready_is(self, d: int)
        requires
            self.inv(),
            self.first_ready_at(d),
        ensures
            self.has_ready(),
            self.next_ready() == self.slot(d),
    {
        self.lemma_slot_in_range(d);
        let c = choose|c: int| self.first_ready_at(c);
        if c < d {
            assert(self.states[self.slot(c)] != State::Ready);
        } else if d < c {
            assert(self.states[self.slot(d)] != State::Ready);
        }
    }

    /// What `next_ready` names: a ready fiber other than the current one,
    /// with no ready fiber between the current one and it.
    pub proof fn lemma_next_ready(self)
        requires
            self.inv(),
            self.has_ready(),
        ensures
            0 <= self.next_ready() < self.len(),
            self.next_ready() != self.current,
            self.states[self.next_ready()] == State::Ready,
            self.first_ready_at(self.distance(self.next_ready())),
    {
        self.lemma_ready_has_first();
        let c = choose|c: int| self.first_ready_at(c);
        self.lemma_slot_in_range(c);
    }

    /// If no fiber within reach of a full turn is ready, no other fiber is
    /// ready at all.
    pub proof fn lemma_full_turn(self)
        requires
            self.inv(),
            forall|e: int| 1 <= e < self.len() ==> self.states[#[trigger] self.slot(e)] != State::Ready,
        ensures
            !self.has_ready(),
    {
        if self.has_ready() {
            let i = choose|i: int|
                0 <= i < self.len() && i != self.current && self.states[i] == State::Ready;
            self.lemma_slot_distance(i);
            assert(self.states[self.slot(self.distance(i))] != State::Ready);
        }
    }

    /// There is only one first free fiber.
    pub proof fn lemma_first_available_unique(self, i: int, j: int)
        requires
            self.first_available(i),
            self.first_available(j),
        ensures
            i == j,
    {
    }

    /// Spawning keeps the scheduling invariant.
    pub proof fn lemma_claim_wf(self, i: int)
        requires
            self.wf(),
            self.first_available(i),
        ensures
            self.claim(i).wf(),
            self.claim(i).len() == self.len(),
    {
    }

    /// A yield keeps the scheduling invariant and the size of the pool.
    pub proof fn lemma_tick_wf(self)
        requires
            self.wf(),
        ensures
            self.tick().wf(),
            self.tick().len() == self.len(),
    {
        if self.has_ready() {
            self.lemma_next_ready();
        }
    }

    /// While a fiber other than the base is running, the base is ready.
    pub proof fn lemma_base_waits(self)
        requires
            self.wf(),
            self.current != 0,
        ensures
            self.states[0] == State::Ready,
            self.release().has_ready(),
    {
        assert(self.states[0] != State::Running);
        assert(self.release().states[0] == State::Ready);
    }

    /// A returning body keeps the scheduling invariant. If the fiber was not
    /// the base, it is free afterwards and another fiber is running: the one
    /// that was first ready after it.
    pub proof fn lemma_finish_wf(self)
        requires
            self.wf(),
        ensures
            self.finish().wf(),
            self.finish().len() == self.len(),
            self.current != 0 ==> {
                &&& self.finish().states[self.current] == State::Available
                &&& self.finish().current != self.current
                &&& self.finish().current == self.release().next_ready()
                &&& self.states[self.finish().current] == State::Ready
            },
    {
        if self.current != 0 {
            self.lemma_base_waits();
            self.release().lemma_next_ready();
        }
    }

    /// Every event moves every fiber along its lifecycle: a spawn, a yield
    /// and a return change the state of a fiber only in the ways that
    /// `may_become` allows. A yield and a return change no fiber but the one
    /// that was current and the one that is current afterwards.
    pub proof fn lemma_lifecycle(self, i: int)
        requires
            self.wf(),
            0 <= i < self.len(),
        ensures
            may_become(self.states[i], self.tick().states[i]),
            may_become(self.states[i], self.finish().states[i]),
            forall|j: int| self.first_available(j) ==> may_become(
                self.states[i],
                #[trigger] self.claim(j).states[i],
            ),
            i != self.current && i != self.tick().current ==> self.tick().states[i]
                == self.states[i],
            i != self.current && i != self.finish().current ==> self.finish().states[i]
                == self.states[i],
    {
        if self.has_ready() {
            self.lemma_next_ready();
        }
        if self.current != 0 {
            self.lemma_base_waits();
            self.release().lemma_next_ready();
        }
    }

    /// When the base is current and no fiber is ready, every other fiber is
    /// free: the scheduler stops only after every body has returned.
    pub proof fn lemma_idle_means_done(self)
        requires
            self.wf(),
            !self.has_ready(),
        ensures
            forall|i: int|
                0 <= i < self.len() && i != self.current ==> self.states[i] == State::Available,
            self.current == 0,
    {
        if self.current != 0 {
            assert(self.states[0] != State::Running);
        }
    }
}

} // verus!
