//! What the scheduler does when every body follows a fixed script.
//!
//! A body is described by the number of times it yields before it returns.
//! Once the base fiber has spawned its bodies and entered its scheduling
//! loop, every event is decided by the round-robin rule, so the whole run is
//! a function of the pool and the scripts. This module writes that function
//! down and proves what it computes for bodies that all yield equally often.

use vstd::prelude::*;
use crate::schedule::Pool;
use crate::state::State;

verus! {

/// A run in progress: the pool, how many yields each body has left before
/// it returns, and how often each fiber has been made the running one.
#[verifier::ext_equal]
pub struct Run {
    pub pool: Pool,
    pub yields_left: Seq<nat>,
    pub episodes: Seq<nat>,
}

/// A fresh pool of `m` fibers after `n` bodies have been spawned.
pub open spec fn spawned(m: nat, n: nat) -> Pool
    decreases n,
{
    if n == 0 {
        Pool::fresh(m)
    } else {
        spawned(m, (n - 1) as nat).claim(n as int)
    }
}

/// The state of fiber `i` in a pool of which fibers `1..=n` hold bodies,
/// fiber `j` is current, `left` yields were left to every body when the
/// round began, and the bodies before `j` have had their turn.
pub open spec fn round_state(n: nat, left: nat, j: nat, i: int) -> State {
    if i == j {
        State::Running
    } else if i == 0 {
        State::Ready
    } else if i < j {
        if left == 0 {
            State::Available
        } else {
            State::Ready
        }
    } else if i <= n {
        State::Ready
    } else {
        State::Available
    }
}

/// The yields left to the body on fiber `i` in the situation described at
/// `round_state`.
pub open spec fn round_yields(n: nat, left: nat, j: nat, i: int) -> nat {
    if 1 <= i < j && left > 0 {
        (left - 1) as nat
    } else if j <= i <= n && 1 <= i {
        left
    } else {
        0
    }
}

/// The number of running episodes of fiber `i` in the situation described
/// at `round_state`, `done` rounds having been completed before.
pub open spec fn round_episodes(n: nat, done: nat, j: nat, i: int) -> nat {
    if 1 <= i <= j {
        done + 1
    } else if i <= n {
        done
    } else {
        0
    }
}

impl Run {
    /// The run at the moment the base fiber enters its scheduling loop:
    /// a pool of `m` fibers with bodies on fibers `1..=n`, each of which
    /// yields `k` times before it returns.
    pub open spec fn start(m: nat, n: nat, k: nat) -> Run {
        Run {
            pool: spawned(m, n),
            yields_left: Seq::new(
                m,
                |i: int|
                    if 1 <= i <= n {
                        k
                    } else {
                        0
                    },
            ),
            episodes: Seq::new(m, |i: int| 0nat),
        }
    }

    /// The run in the round in which every body had `left` yields left at
    /// the beginning, `done` rounds having been completed, at the moment
    /// fiber `j` is current.
    pub open spec fn mid_round(m: nat, n: nat, left: nat, done: nat, j: nat) -> Run {
        Run {
            pool: Pool { states: Seq::new(m, |i: int| round_state(n, left, j, i)), current: j as int },
            yields_left: Seq::new(m, |i: int| round_yields(n, left, j, i)),
            episodes: Seq::new(m, |i: int| round_episodes(n, done, j, i)),
        }
    }

    /// The run after every body has returned, each fiber having had
    /// `done` running episodes.
    pub open spec fn finished(m: nat, n: nat, done: nat) -> Run {
        Run {
            pool: Pool::fresh(m),
            yields_left: Seq::new(m, |i: int| 0nat),
            episodes: Seq::new(
                m,
                |i: int|
                    if i <= n {
                        done
                    } else {
                        0
                    },
            ),
        }
    }

    /// The scheduling loop of the base fiber has found nothing to run and
    /// the program ends.
    pub open spec fn halted(self) -> bool {
        self.pool.current == 0 && !self.pool.has_ready()
    }

    /// The run with pool `next`, a running episode counted for the fiber
    /// that has become current.
    pub open spec fn enter(self, next: Pool) -> Run {
        Run {
            pool: next,
            yields_left: self.yields_left,
            episodes: if next.current != self.pool.current {
                self.episodes.update(next.current, self.episodes[next.current] + 1)
            } else {
                self.episodes
            },
        }
    }

    /// The next event of the run. The base fiber, in its scheduling loop,
    /// offers to give way. A body with yields left yields once. A body
    /// with none left returns.
    pub open spec fn step(self) -> Run {
        let c = self.pool.current;
        if c == 0 {
            self.enter(self.pool.tick())
        } else if self.yields_left[c] > 0 {
            Run {
                pool: self.pool,
                yields_left: self.yields_left.update(c, (self.yields_left[c] - 1) as nat),
                episodes: self.episodes,
            }.enter(self.pool.tick())
        } else {
            self.enter(self.pool.finish())
        }
    }

    /// The run after `t` events.
    pub open spec fn after(self, t: nat) -> Run
        decreases t,
    {
        if t == 0 {
            self
        } else {
            self.after((t - 1) as nat).step()
        }
    }

    /// Spawning `n` bodies into a fresh pool claims fibers `1..=n`, in that
    /// order, and keeps the scheduling invariant.
    pub proof fn lemma_spawned(m: nat, n: nat)
        requires
            n < m,
        ensures
            spawned(m, n).wf(),
            spawned(m, n).current == 0,
            spawned(m, n).states == Seq::new(m, |i: int| round_state(n, 0, 0, i)),
            n + 1 < m ==> spawned(m, n).first_available(n as int + 1),
            n + 1 == m ==> !spawned(m, n).has_available(),
        decreases n,
    {
        if n == 0 {
            assert(spawned(m, n).states =~= Seq::new(m, |i: int| round_state(n, 0, 0, i)));
        } else {
            Self::lemma_spawned(m, (n - 1) as nat);
            assert(spawned(m, n).states =~= Seq::new(m, |i: int| round_state(n, 0, 0, i)));
        }
    }

    /// The next spawn into a fresh pool that holds `n` bodies claims fiber
    /// `n + 1`.
    pub proof fn lemma_spawn_order(m: nat, n: nat, i: int)
        requires
            n + 1 < m,
            spawned(m, n).first_available(i),
        ensures
            i == n + 1,
            spawned(m, n).claim(i) == spawned(m, n + 1),
    {
        Self::lemma_spawned(m, n);
        spawned(m, n).lemma_first_available_unique(i, n as int + 1);
    }

    /// Without bodies the program ends at once: the base fiber finds
    /// nothing to run at its first attempt, and nothing ever changes.
    pub proof fn lemma_no_bodies(m: nat, k: nat, t: nat)
        requires
            1 <= m,
        ensures
            Run::start(m, 0, k).halted(),
            Run::start(m, 0, k).pool == Pool::fresh(m),
            Run::start(m, 0, k).after(t) == Run::start(m, 0, k),
        decreases t,
    {
        Pool::lemma_fresh(m);
        if t > 0 {
            Self::lemma_no_bodies(m, k, (t - 1) as nat);
        }
    }

    /// A run starts at the beginning of its first round.
    pub proof fn lemma_start(m: nat, n: nat, k: nat)
        requires
            n < m,
        ensures
            Run::start(m, n, k) == Run::mid_round(m, n, k, 0, 0),
    {
        Self::lemma_spawned(m, n);
        assert(Run::start(m, n, k) =~= Run::mid_round(m, n, k, 0, 0));
    }

    /// Within a round the fibers take their turns in pool order: after the
    /// base comes the first body, after each body the next one.
    pub proof fn lemma_turn(m: nat, n: nat, left: nat, done: nat, j: nat)
        requires
            1 <= n < m,
            j < n,
        ensures
            Run::mid_round(m, n, left, done, j).step() == Run::mid_round(
                m,
                n,
                left,
                done,
                j + 1,
            ),
    {
        let r = Run::mid_round(m, n, left, done, j);
        let p = if j == 0 || left > 0 {
            r.pool
        } else {
            r.pool.release()
        };
        assert(p.slot(1) == j + 1);
        assert(p.first_ready_at(1));
        p.lemma_next_ready_is(1);
        let s = r.step();
        let t = Run::mid_round(m, n, left, done, j + 1);
        assert(s.pool.states =~= t.pool.states);
        assert(s.yields_left =~= t.yields_left);
        assert(s.episodes =~= t.episodes);
    }

    /// The last body of a round hands over to the base fiber. If the bodies
    /// had yields left, the next round begins with one yield fewer each.
    pub proof fn lemma_round_ends(m: nat, n: nat, left: nat, done: nat)
        requires
            1 <= n < m,
            left > 0,
        ensures
            Run::mid_round(m, n, left, done, n).step() == Run::mid_round(
                m,
                n,
                (left - 1) as nat,
                done + 1,
                0,
            ),
    {
        let r = Run::mid_round(m, n, left, done, n);
        let p = r.pool;
        let d = m - n;
        assert(p.slot(d) == 0);
        assert forall|e: int| 1 <= e < d implies p.states[#[trigger] p.slot(e)] != State::Ready by {
            assert(p.slot(e) == n + e);
        }
        assert(p.first_ready_at(d));
        p.lemma_next_ready_is(d);
        let s = r.step();
        let t = Run::mid_round(m, n, (left - 1) as nat, done + 1, 0);
        assert(s.pool.states =~= t.pool.states);
        assert(s.yields_left =~= t.yields_left);
        assert(s.episodes =~= t.episodes);
    }

    /// When the last body of the last round returns, the base fiber is
    /// running again and every other fiber is free.
    pub proof fn lemma_last_round_ends(m: nat, n: nat, done: nat)
        requires
            1 <= n < m,
        ensures
            Run::mid_round(m, n, 0, done, n).step() == Run::finished(m, n, done + 1),
    {
        let r = Run::mid_round(m, n, 0, done, n);
        let p = r.pool.release();
        let d = m - n;
        assert(p.slot(d) == 0);
        assert forall|e: int| 1 <= e < d implies p.states[#[trigger] p.slot(e)] != State::Ready by {
            assert(p.slot(e) == n + e);
        }
        assert(p.first_ready_at(d));
        p.lemma_next_ready_is(d);
        let s = r.step();
        let t = Run::finished(m, n, done + 1);
        assert(s.pool.states =~= t.pool.states);
        assert(s.yields_left =~= t.yields_left);
        assert(s.episodes =~= t.episodes);
    }

    /// Every moment of a run in closed form: after `q` full rounds and `j`
    /// further events, `q` rounds are done, every body has `k - q` yields
    /// left for this round, and fiber `j` is current.
    pub proof fn lemma_closed_form(m: nat, n: nat, k: nat, q: nat, j: nat)
        requires
            1 <= n < m,
            q <= k,
            j <= n,
        ensures
            Run::start(m, n, k).after(q * (n + 1) + j) == Run::mid_round(
                m,
                n,
                (k - q) as nat,
                q,
                j,
            ),
        decreases q, j,
    {
        let t = q * (n + 1) + j;
        if j > 0 {
            Self::lemma_closed_form(m, n, k, q, (j - 1) as nat);
            Self::lemma_turn(m, n, (k - q) as nat, q, (j - 1) as nat);
            assert((t - 1) as nat == q * (n + 1) + (j - 1));
        } else if q > 0 {
            Self::lemma_closed_form(m, n, k, (q - 1) as nat, n);
            Self::lemma_round_ends(m, n, (k - q + 1) as nat, (q - 1) as nat);
            assert((q - 1) * (n + 1) + n == q * (n + 1) - 1) by (nonlinear_arith);
        } else {
            Self::lemma_start(m, n, k);
            assert(q * (n + 1) == 0) by (nonlinear_arith)
                requires
                    q == 0,
            ;
        }
    }

    /// Bodies that yield equally often take turns in rounds. If fibers
    /// `1..=n` hold bodies that each yield `k` times and then return, the
    /// run takes `(k + 1) * (n + 1)` events. The program does not end
    /// before the last of them. At the end every body has been the running
    /// fiber exactly `k + 1` times, has used up its yields and has freed its
    /// fiber, and the base fiber is the running one.
    pub proof fn lemma_equal_bodies_run_in_rounds(m: nat, n: nat, k: nat)
        requires
            1 <= n < m,
        ensures
            Run::start(m, n, k).after((k + 1) * (n + 1)) == Run::finished(m, n, k + 1),
            Run::start(m, n, k).after((k + 1) * (n + 1)).halted(),
            ({
                let end = Run::start(m, n, k).after((k + 1) * (n + 1));
                forall|i: int|
                    1 <= i <= n ==> {
                        &&& #[trigger] end.episodes[i] == k + 1
                        &&& end.yields_left[i] == 0
                        &&& end.pool.states[i] == State::Available
                    }
            }),
            forall|t: nat|
                t < (k + 1) * (n + 1) ==> !(#[trigger] Run::start(m, n, k).after(t)).halted(),
    {
        let total = (k + 1) * (n + 1);
        let begin = Run::start(m, n, k);
        assert(total == k * (n + 1) + n + 1) by (nonlinear_arith)
            requires
                total == (k + 1) * (n + 1),
        ;
        Self::lemma_closed_form(m, n, k, k, n);
        Self::lemma_last_round_ends(m, n, k);
        assert((total - 1) as nat == k * (n + 1) + n);
        assert(begin.after(total) == Run::finished(m, n, k + 1));
        Pool::lemma_fresh(m);
        assert forall|t: nat| t < total implies !(#[trigger] begin.after(t)).halted() by {
            Self::lemma_position(m, n, k, t);
        }
    }

    /// The fibers run in strict cyclic order, beginning with the fiber
    /// after the base: after `t` events of the run described at
    /// `lemma_equal_bodies_run_in_rounds`, the current fiber is
    /// `t % (n + 1)`.
    pub proof fn lemma_cyclic_order(m: nat, n: nat, k: nat, t: nat)
        requires
            1 <= n < m,
            t <= (k + 1) * (n + 1),
        ensures
            Run::start(m, n, k).after(t).pool.current == t % (n + 1),
            Run::start(m, n, k).after(t).pool.wf(),
    {
        let total = (k + 1) * (n + 1);
        if t < total {
            Self::lemma_position(m, n, k, t);
        } else {
            Self::lemma_equal_bodies_run_in_rounds(m, n, k);
            Pool::lemma_fresh(m);
            assert(((k + 1) * (n + 1)) % (n + 1) == 0) by (nonlinear_arith);
        }
    }

    /// Before the end of the run described at
    /// `lemma_equal_bodies_run_in_rounds`, the run is in the middle of a
    /// round and has not halted.
    proof fn lemma_position(m: nat, n: nat, k: nat, t: nat)
        requires
            1 <= n < m,
            t < (k + 1) * (n + 1),
        ensures
            Run::start(m, n, k).after(t) == Run::mid_round(
                m,
                n,
                (k - t / (n + 1)) as nat,
                t / (n + 1),
                t % (n + 1),
            ),
            t / (n + 1) <= k,
            Run::start(m, n, k).after(t).pool.current == t % (n + 1),
            Run::start(m, n, k).after(t).pool.wf(),
            !Run::start(m, n, k).after(t).halted(),
    {
        let w = n + 1;
        let q = t / w;
        let j = t % w;
        assert(t == q * w + j && 0 <= j < w && q <= k) by (nonlinear_arith)
            requires
                q == t / w,
                j == t % w,
                w > 0,
                t < (k + 1) * w,
        ;
        Self::lemma_closed_form(m, n, k, q, j);
        let r = Run::mid_round(m, n, (k - q) as nat, q, j);
        if j == 0 {
            assert(r.pool.states[1] == State::Ready);
        }
    }
}

} // verus!
