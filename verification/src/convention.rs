//! The one place where calling conventions differ.
//!
//! A convention fixes three things: which registers a suspended fiber has to
//! remember, what a register record looks like before its fiber has ever
//! run, and which words have to lie on a fresh stack so that the first
//! resumption enters the fiber's body and the body's return lands in the
//! guard routine. The scheduler is written once against this trait.

use vstd::prelude::*;
use crate::stack::{aligned_top, header_fits, HEADER_SIZE};

verus! {

/// A register record for one calling convention, together with the rule for
/// preparing a fresh stack.
pub trait Convention: Sized {
    /// The record of a fiber that has never run: every slot is zero.
    spec fn blank() -> Self;

    /// The stack pointer saved in the record.
    spec fn stack_pointer(self) -> u64;

    /// The record after a fresh stack with aligned top `top` has been
    /// prepared for a body that starts at `entry`.
    spec fn seeded(self, top: u64, entry: u64) -> Self;

    /// The contents of a stack block after it has been prepared. `top` is
    /// the offset of the aligned top from the start of the block.
    spec fn image(stack: Seq<u8>, top: int, entry: u64, guard: u64, skip: u64) -> Seq<u8>;

    /// The address at which execution continues when a context switch
    /// loads this record, the fiber's stack being `stack` at address
    /// `base`.
    spec fn entry_point(self, stack: Seq<u8>, base: int) -> u64;

    /// The address at which a body lands when it returns, if it was entered
    /// by a context switch that loaded this record, the fiber's stack being
    /// `stack` at address `base`.
    spec fn return_target(self, stack: Seq<u8>, base: int) -> u64;

    /// What preparing a stack achieves. The saved stack pointer is 16-byte
    /// aligned and leaves the header inside the block. The first switch to
    /// the fiber enters the body, and when the body returns it lands in the
    /// guard routine.
    proof fn lemma_prepared(self, stack: Seq<u8>, base: int, entry: u64, guard: u64, skip: u64)
        requires
            0 <= base,
            base + stack.len() <= u64::MAX,
            header_fits(base, stack.len() as int),
        ensures
            ({
                let top = aligned_top(base, stack.len() as int);
                let ctx = self.seeded(top as u64, entry);
                let image = Self::image(stack, top - base, entry, guard, skip);
                &&& ctx.stack_pointer() == top - HEADER_SIZE
                &&& ctx.stack_pointer() % 16 == 0
                &&& base <= ctx.stack_pointer()
                &&& ctx.stack_pointer() + HEADER_SIZE <= base + stack.len()
                &&& image.len() == stack.len()
                &&& ctx.entry_point(image, base) == entry
                &&& ctx.return_target(image, base) == guard
            }),
    ;

    /// Makes a record with every slot zero.
    fn cleared() -> (c: Self)
        ensures
            c == Self::blank(),
    ;

    /// Reads the saved stack pointer.
    fn saved_stack_pointer(&self) -> (sp: u64)
        ensures
            sp == self.stack_pointer(),
    ;

    /// Prepares `stack`, a block whose first byte has address `base`, and
    /// this record, so that resuming the fiber enters the body at `entry`
    /// and the body returns into the routine at `guard`. `skip` is the
    /// address of a routine that only returns; conventions that need no
    /// extra hop ignore it.
    fn prepare(&mut self, stack: &mut Vec<u8>, base: usize, entry: u64, guard: u64, skip: u64)
        requires
            base + old(stack)@.len() <= usize::MAX,
            header_fits(base as int, old(stack)@.len() as int),
        ensures
            final(stack)@.len() == old(stack)@.len(),
            *final(self) == old(self).seeded(
                aligned_top(base as int, old(stack)@.len() as int) as u64,
                entry,
            ),
            final(stack)@ == Self::image(
                old(stack)@,
                aligned_top(base as int, old(stack)@.len() as int) - base,
                entry,
                guard,
                skip,
            ),
    ;
}

} // verus!
