//! What a context switch has to do, and why that is enough.
//!
//! The switch itself is a handful of machine instructions and is not part
//! of the library. This module states its contract on register records: the
//! live registers are stored into the record of the fiber that gives way,
//! and loaded from the record of the fiber that takes over. If every change
//! of the current fiber is followed by such a switch, no fiber ever loses
//! its registers.

use vstd::prelude::*;
use crate::schedule::Pool;

verus! {

/// The registers of a machine that runs fibers: the ones in the CPU, and
/// the record of each fiber, in pool order. The record of the running fiber
/// is stale; its registers are the live ones.
pub struct Machine<C> {
    pub live: C,
    pub records: Seq<C>,
}

impl<C> Machine<C> {
    /// The machine after a context switch from fiber `from` to fiber `to`:
    /// every live register has been stored into the record of `from`, and
    /// then every register has been loaded from the record of `to`.
    pub open spec fn switched(self, from: int, to: int) -> Machine<C> {
        Machine {
            live: self.records.update(from, self.live)[to],
            records: self.records.update(from, self.live),
        }
    }

    /// The registers of fiber `i` while fiber `current` is running.
    pub open spec fn registers(self, current: int, i: int) -> C {
        if i == current {
            self.live
        } else {
            self.records[i]
        }
    }

    /// The machine after a scheduler call that took the pool from `before`
    /// to `after`: if the current fiber has changed, the caller has
    /// switched from the old one to the new one.
    pub open spec fn follow(self, before: Pool, after: Pool) -> Machine<C> {
        if before.current == after.current {
            self
        } else {
            self.switched(before.current, after.current)
        }
    }

    /// A switch keeps the registers of every fiber: the fiber that takes
    /// over finds its saved registers in the CPU, the fiber that gives way
    /// finds its live registers in its record, and no other record changes.
    pub proof fn lemma_switch_keeps_registers(self, from: int, to: int, i: int)
        requires
            0 <= from < self.records.len(),
            0 <= to < self.records.len(),
            0 <= i < self.records.len(),
        ensures
            self.switched(from, to).registers(to, i) == self.registers(from, i),
            self.switched(from, to).records.len() == self.records.len(),
    {
    }

    /// A fiber that gives way and is switched back to later continues with
    /// the registers it had, whatever ran in between on registers of its
    /// own.
    pub proof fn lemma_round_trip(self, a: int, b: int, between: C)
        requires
            0 <= a < self.records.len(),
            0 <= b < self.records.len(),
            a != b,
        ensures
            (Machine { live: between, ..self.switched(a, b) }).switched(b, a).live == self.live,
    {
    }

    /// A yield followed by the switch it calls for keeps the registers of
    /// every fiber.
    pub proof fn lemma_yield_keeps_registers(self, pool: Pool, i: int)
        requires
            pool.wf(),
            self.records.len() == pool.len(),
            0 <= i < pool.len(),
        ensures
            self.follow(pool, pool.tick()).registers(pool.tick().current, i) == self.registers(
                pool.current,
                i,
            ),
    {
        pool.lemma_tick_wf();
    }

    /// A return followed by the switch it calls for keeps the registers of
    /// every fiber.
    pub proof fn lemma_return_keeps_registers(self, pool: Pool, i: int)
        requires
            pool.wf(),
            self.records.len() == pool.len(),
            0 <= i < pool.len(),
        ensures
            self.follow(pool, pool.finish()).registers(pool.finish().current, i)
                == self.registers(pool.current, i),
    {
        pool.lemma_finish_wf();
    }
}

} // verus!
