//! Fibers and the round-robin scheduler that owns them.
//!
//! The scheduler keeps a fixed pool of fibers. It decides which fiber a
//! spawn claims and which fiber runs next, prepares the stack of a spawned
//! fiber, and records every lifecycle transition. It does not move the CPU:
//! after a call that changed the current fiber, the caller switches from the
//! register context of the fiber that was current before the call to that of
//! the fiber that is current after it.

use vstd::prelude::*;
use crate::convention::Convention;
use crate::schedule::Pool;
use crate::stack::{
    aligned_top,
    block_address,
    lemma_min_stack_fits,
    DEFAULT_STACK_SIZE,
    MIN_STACK_SIZE,
};
use crate::state::State;

verus! {

/// Number of fibers in the pool of a scheduler made with `Runtime::new`,
/// the base fiber included.
pub const MAX_THREADS: usize = 4;

/// Why a spawn did not take place.
#[derive(Clone, Copy, Debug, PartialEq, Eq, Structural)]
pub enum SpawnError {
    /// Every fiber of the pool holds a body or is the base.
    NoAvailableThread,
}

/// What a fiber is, as plain values.
pub ghost struct ThreadView<C> {
    pub stack: Seq<u8>,
    pub ctx: C,
    pub state: State,
}

/// A fiber: a stack, a register context and a lifecycle state.
///
/// The stack is allocated once and never resized, so its address stays the
/// same for as long as the fiber exists.
pub struct Thread<C> {
    stack: Vec<u8>,
    ctx: C,
    state: State,
}

impl<C> View for Thread<C> {
    type V = ThreadView<C>;

    closed spec fn view(&self) -> ThreadView<C> {
        ThreadView { stack: self.stack@, ctx: self.ctx, state: self.state }
    }
}

impl<C: Convention> Thread<C> {
    /// A free fiber with a zeroed stack of the default size.
    pub fn new() -> (t: Self)
        ensures
            t@.state == State::Available,
            t@.ctx == C::blank(),
            t@.stack == Seq::new(DEFAULT_STACK_SIZE as nat, |i: int| 0u8),
    {
        Self::with_stack_size(DEFAULT_STACK_SIZE)
    }

    /// A free fiber with a zeroed stack of `size` bytes.
    pub fn with_stack_size(size: usize) -> (t: Self)
        ensures
            t@.state == State::Available,
            t@.ctx == C::blank(),
            t@.stack == Seq::new(size as nat, |i: int| 0u8),
    {
        let stack: Vec<u8> = vec![0u8; size];
        assert(stack@ =~= Seq::new(size as nat, |i: int| 0u8));
        Thread { stack, ctx: C::cleared(), state: State::Available }
    }

    /// The lifecycle state of the fiber.
    pub fn state(&self) -> (s: State)
        ensures
            s == self@.state,
    {
        self.state
    }

    /// The saved register context of the fiber.
    pub fn context(&self) -> (c: &C)
        ensures
            *c == self@.ctx,
    {
        &self.ctx
    }

    /// The bytes of the fiber's stack, lowest address first.
    pub fn stack(&self) -> (s: &[u8])
        ensures
            s@ == self@.stack,
    {
        self.stack.as_slice()
    }

    /// The address of the lowest byte of the fiber's stack.
    pub fn stack_address(&self) -> (base: usize)
        ensures
            base + self@.stack.len() <= usize::MAX,
    {
        block_address(&self.stack)
    }
}

/// The scheduler: a fixed pool of fibers and the index of the current one.
pub struct Runtime<C> {
    threads: Vec<Thread<C>>,
    current: usize,
    guard: u64,
    skip: u64,
    initialised: bool,
}

impl<C> View for Runtime<C> {
    type V = Pool;

    closed spec fn view(&self) -> Pool {
        Pool {
            states: Seq::new(self.threads@.len(), |i: int| self.threads@[i].state),
            current: self.current as int,
        }
    }
}

impl<C: Convention> Runtime<C> {
    /// The stacks of all fibers, in pool order.
    pub closed spec fn stacks(&self) -> Seq<Seq<u8>> {
        Seq::new(self.threads@.len(), |i: int| self.threads@[i].stack@)
    }

    /// The saved register contexts of all fibers, in pool order.
    pub closed spec fn contexts(&self) -> Seq<C> {
        Seq::new(self.threads@.len(), |i: int| self.threads@[i].ctx)
    }

    /// Whether `init` has been called.
    pub closed spec fn initialised(&self) -> bool {
        self.initialised
    }

    /// Address of the routine a finished body returns into.
    pub closed spec fn guard_address(&self) -> u64 {
        self.guard
    }

    /// Address of the routine that only returns.
    pub closed spec fn skip_address(&self) -> u64 {
        self.skip
    }

    /// The scheduler is usable: the index of the current fiber names a fiber
    /// of the pool, and every stack has room for the header.
    pub closed spec fn inv(&self) -> bool {
        &&& self@.inv()
        &&& forall|i: int|
            0 <= i < self.threads@.len() ==> MIN_STACK_SIZE <= (
            #[trigger] self.threads@[i]).stack@.len()
    }

    /// The scheduler is usable and at rest: exactly one fiber is running,
    /// it is the current one, and the base fiber holds the program.
    pub open spec fn wf(&self) -> bool {
        &&& self.inv()
        &&& self@.wf()
    }

    /// Fiber `i` has been prepared for a body starting at `entry`, its stack
    /// lying at address `base`; nothing else about the fibers has changed.
    pub open spec fn prepared(&self, before: &Self, i: int, base: int, entry: u64) -> bool {
        let size = before.stacks()[i].len() as int;
        let top = aligned_top(base, size);
        &&& 0 <= base
        &&& base + size <= usize::MAX
        &&& self.contexts() == before.contexts().update(
            i,
            before.contexts()[i].seeded(top as u64, entry),
        )
        &&& self.stacks() == before.stacks().update(
            i,
            C::image(
                before.stacks()[i],
                top - base,
                entry,
                before.guard_address(),
                before.skip_address(),
            ),
        )
    }

    /// Everything but the lifecycle states and the current index is as it
    /// was in `before`.
    pub open spec fn same_fibers(&self, before: &Self) -> bool {
        &&& self.stacks() == before.stacks()
        &&& self.contexts() == before.contexts()
        &&& self.same_entry_points(before)
    }

    /// The re-entry routines are as they were in `before`.
    pub open spec fn same_entry_points(&self, before: &Self) -> bool {
        &&& self.initialised() == before.initialised()
        &&& self.guard_address() == before.guard_address()
        &&& self.skip_address() == before.skip_address()
    }

    /// A scheduler with `MAX_THREADS` fibers, each with a stack of
    /// `DEFAULT_STACK_SIZE` bytes. The first fiber is the base and is
    /// running; the others are free.
    pub fn new() -> (rt: Self)
        ensures
            rt.wf(),
            !rt.initialised(),
            rt@ == Pool::fresh(MAX_THREADS as nat),
            rt.contexts() == Seq::new(MAX_THREADS as nat, |i: int| C::blank()),
            rt.stacks() == Seq::new(
                MAX_THREADS as nat,
                |i: int| Seq::new(DEFAULT_STACK_SIZE as nat, |k: int| 0u8),
            ),
    {
        Self::with_pool(MAX_THREADS, DEFAULT_STACK_SIZE)
    }

    /// A scheduler with `fiber_count` fibers, each with a stack of
    /// `stack_size` bytes. The first fiber is the base and is running; the
    /// others are free.
    pub fn with_pool(fiber_count: usize, stack_size: usize) -> (rt: Self)
        requires
            1 <= fiber_count,
            MIN_STACK_SIZE <= stack_size,
        ensures
            rt.wf(),
            !rt.initialised(),
            rt@ == Pool::fresh(fiber_count as nat),
            rt.contexts() == Seq::new(fiber_count as nat, |i: int| C::blank()),
            rt.stacks() == Seq::new(
                fiber_count as nat,
                |i: int| Seq::new(stack_size as nat, |k: int| 0u8),
            ),
    {
        let mut base_thread: Thread<C> = Thread::with_stack_size(stack_size);
        base_thread.state = State::Running;
        let mut threads: Vec<Thread<C>> = Vec::new();
        threads.push(base_thread);
        let mut n: usize = 1;
        while n < fiber_count
            invariant
                1 <= n <= fiber_count,
                threads@.len() == n,
                threads@[0].state == State::Running,
                forall|i: int| 1 <= i < n ==> (#[trigger] threads@[i]).state == State::Available,
                forall|i: int| 0 <= i < n ==> (#[trigger] threads@[i]).ctx == C::blank(),
                forall|i: int|
                    0 <= i < n ==> (#[trigger] threads@[i]).stack@ == Seq::new(
                        stack_size as nat,
                        |k: int| 0u8,
                    ),
            decreases fiber_count - n,
        {
            threads.push(Thread::with_stack_size(stack_size));
            n = n + 1;
        }
        let rt = Runtime { threads, current: 0, guard: 0, skip: 0, initialised: false };
        assert(rt@ =~= Pool::fresh(fiber_count as nat));
        assert(rt.contexts() =~= Seq::new(fiber_count as nat, |i: int| C::blank()));
        assert(rt.stacks() =~= Seq::new(
            fiber_count as nat,
            |i: int| Seq::new(stack_size as nat, |k: int| 0u8),
        ));
        rt
    }

    /// Index of the current fiber.
    pub fn current(&self) -> (pos: usize)
        ensures
            pos == self@.current,
    {
        self.current
    }

    fn set_current(&mut self, current: usize)
        ensures
            final(self)@ == (Pool { states: old(self)@.states, current: current as int }),
            final(self).stacks() == old(self).stacks(),
            final(self).contexts() == old(self).contexts(),
            final(self).same_entry_points(old(self)),
            final(self).threads == old(self).threads,
    {
        self.current = current;
    }

    /// Number of fibers in the pool, the base included.
    pub fn len(&self) -> (n: usize)
        ensures
            n == self@.len(),
    {
        self.threads.len()
    }

    /// Fiber `i` of the pool.
    pub fn thread(&self, i: usize) -> (t: &Thread<C>)
        requires
            i < self@.len(),
        ensures
            t@.state == self@.states[i as int],
            t@.stack == self.stacks()[i as int],
            t@.ctx == self.contexts()[i as int],
    {
        &self.threads[i]
    }

    /// Whether `init` has been called.
    pub fn is_initialised(&self) -> (b: bool)
        ensures
            b == self.initialised(),
    {
        self.initialised
    }

    /// Makes the scheduler reachable from inside fibers: records the
    /// address of the routine a finished body returns into and of the
    /// routine that only returns. To be called once, before anything is
    /// spawned.
    pub fn init(&mut self, guard: u64, skip: u64)
        requires
            !old(self).initialised(),
        ensures
            final(self).initialised(),
            final(self).guard_address() == guard,
            final(self).skip_address() == skip,
            final(self)@ == old(self)@,
            final(self).stacks() == old(self).stacks(),
            final(self).contexts() == old(self).contexts(),
            old(self).wf() ==> final(self).wf(),
    {
        self.guard = guard;
        self.skip = skip;
        self.initialised = true;
    }

    /// Index of the first free fiber, if there is one.
    pub fn find_available(&self) -> (r: Option<usize>)
        ensures
            match r {
                Some(i) => self@.first_available(i as int),
                None => !self@.has_available(),
            },
    {
        let n = self.threads.len();
        let mut i: usize = 0;
        while i < n
            invariant
                i <= n,
                n == self.threads@.len(),
                forall|j: int| 0 <= j < i ==> self@.states[j] != State::Available,
            decreases n - i,
        {
            if self.threads[i].state == State::Available {
                return Some(i);
            }
            i = i + 1;
        }
        None
    }

    /// Claims the first free fiber for a body that starts at `entry`:
    /// prepares its stack and register context and marks it ready. Returns
    /// the index of the fiber. Fails, changing nothing, if no fiber is free.
    pub fn spawn(&mut self, entry: u64) -> (r: Result<usize, SpawnError>)
        requires
            old(self).wf(),
            old(self).initialised(),
        ensures
            final(self).wf(),
            final(self).same_entry_points(old(self)),
            match r {
                Ok(i) => {
                    &&& old(self)@.first_available(i as int)
                    &&& final(self)@ == old(self)@.claim(i as int)
                    &&& exists|base: int| final(self).prepared(old(self), i as int, base, entry)
                },
                Err(e) => {
                    &&& e == SpawnError::NoAvailableThread
                    &&& !old(self)@.has_available()
                    &&& final(self)@ == old(self)@
                    &&& final(self).same_fibers(old(self))
                },
            },
    {
        match self.find_available() {
            None => Err(SpawnError::NoAvailableThread),
            Some(i) => {
                let guard = self.guard;
                let skip = self.skip;
                let base = block_address(&self.threads[i].stack);
                proof {
                    lemma_min_stack_fits(base as int, self.threads@[i as int].stack@.len() as int);
                    old(self)@.lemma_claim_wf(i as int);
                }
                let available = &mut self.threads[i];
                available.ctx.prepare(&mut available.stack, base, entry, guard, skip);
                available.state = State::Ready;
                proof {
                    let size = old(self).stacks()[i as int].len() as int;
                    let top = aligned_top(base as int, size);
                    assert(self@ =~= old(self)@.claim(i as int));
                    assert(self.contexts() =~= old(self).contexts().update(
                        i as int,
                        old(self).contexts()[i as int].seeded(top as u64, entry),
                    ));
                    assert(self.stacks() =~= old(self).stacks().update(
                        i as int,
                        C::image(old(self).stacks()[i as int], top - base, entry, guard, skip),
                    ));
                    assert(self.prepared(old(self), i as int, base as int, entry));
                    assert(exists|b: int| self.prepared(old(self), i as int, b, entry));
                }
                Ok(i)
            },
        }
    }

    /// Gives way: hands the role of current fiber to the first ready fiber
    /// in cyclic order after the current one. Returns whether there was
    /// one.
    fn give_way(&mut self) -> (switched: bool)
        requires
            old(self).inv(),
        ensures
            final(self).inv(),
            switched == old(self)@.has_ready(),
            final(self)@ == old(self)@.tick(),
            final(self).same_fibers(old(self)),
    {
        let n = self.threads.len();
        let cur = self.current;
        let ghost pool = self@;
        let mut d: usize = 1;
        let mut pos: usize = if cur + 1 == n {
            0
        } else {
            cur + 1
        };
        while pos != cur && self.threads[pos].state != State::Ready
            invariant
                self.inv(),
                pool == self@,
                n == self.threads@.len(),
                cur == self.current,
                1 <= d <= n,
                pos < n,
                d < n ==> pos == pool.slot(d as int),
                d == n ==> pos == cur,
                pos == cur ==> d == n,
                forall|e: int| 1 <= e < d ==> pool.states[#[trigger] pool.slot(e)] != State::Ready,
            decreases n - d,
        {
            pos = if pos + 1 == n {
                0
            } else {
                pos + 1
            };
            d = d + 1;
        }
        if pos == cur {
            proof {
                pool.lemma_full_turn();
            }
            return false;
        }
        proof {
            assert(pool.first_ready_at(d as int));
            pool.lemma_next_ready_is(d as int);
        }
        if self.threads[cur].state != State::Available {
            self.threads[cur].state = State::Ready;
        }
        self.threads[pos].state = State::Running;
        self.set_current(pos);
        proof {
            assert(self@ =~= pool.tick());
            assert(self.stacks() =~= old(self).stacks());
            assert(self.contexts() =~= old(self).contexts());
        }
        true
    }

    /// The current fiber offers to give way. If another fiber is ready, the
    /// first one in cyclic order after the current fiber becomes the running
    /// one, the current fiber becomes ready, and the result is `true`.
    /// Otherwise nothing changes and the result is `false`.
    pub fn t_yield(&mut self) -> (switched: bool)
        requires
            old(self).wf(),
        ensures
            final(self).wf(),
            switched == old(self)@.has_ready(),
            final(self)@ == old(self)@.tick(),
            final(self).same_fibers(old(self)),
    {
        proof {
            old(self)@.lemma_tick_wf();
        }
        self.give_way()
    }

    /// The body of the current fiber has returned. Unless that fiber is the
    /// base, it becomes free and the first ready fiber after it becomes the
    /// running one.
    pub fn t_return(&mut self)
        requires
            old(self).wf(),
        ensures
            final(self).wf(),
            final(self)@ == old(self)@.finish(),
            final(self).same_fibers(old(self)),
    {
        let pos = self.current;
        if pos != 0 {
            proof {
                old(self)@.lemma_finish_wf();
            }
            self.threads[pos].state = State::Available;
            assert(self@ =~= old(self)@.release());
            assert(self.stacks() =~= old(self).stacks());
            assert(self.contexts() =~= old(self).contexts());
            self.give_way();
        }
    }
}

/// Called from inside a fiber to let other fibers run: the current fiber
/// of `rt` offers to give way.
pub fn yield_thread<C: Convention>(rt: &mut Runtime<C>)
    requires
        old(rt).wf(),
        old(rt).initialised(),
    ensures
        final(rt).wf(),
        final(rt)@ == old(rt)@.tick(),
        final(rt).same_fibers(old(rt)),
{
    rt.t_yield();
}

/// What the guard routine does once the body of the current fiber has
/// returned into it: it reports the return to the scheduler.
pub fn guard<C: Convention>(rt: &mut Runtime<C>)
    requires
        old(rt).wf(),
        old(rt).initialised(),
    ensures
        final(rt).wf(),
        final(rt)@ == old(rt)@.finish(),
        final(rt).same_fibers(old(rt)),
{
    rt.t_return();
}

} // verus!
