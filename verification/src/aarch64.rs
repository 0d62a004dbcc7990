//! The link-register convention: the return address lives in a register.
//!
//! The saved link register is set to the body, so the jump that ends a
//! context switch enters the body. Only the guard routine is written to the
//! fresh stack, at the saved stack pointer, from where the switch loads it
//! into the link register as the body's own return address.

use vstd::prelude::*;
use crate::convention::Convention;
use crate::stack::{align_top, aligned_top, lemma_word_written, with_word, word_at, write_word};

verus! {

/// The registers that survive a call under the AArch64 procedure call
/// standard, in the order in which a context switch stores them.
#[derive(Debug)]
pub struct ThreadContext {
    pub x19: u64,
    pub x20: u64,
    pub x21: u64,
    pub x22: u64,
    pub x23: u64,
    pub x24: u64,
    pub x25: u64,
    pub x26: u64,
    pub x27: u64,
    pub x28: u64,
    /// Stack pointer.
    pub sp: u64,
    /// Frame pointer, `x29`.
    pub fp: u64,
    /// Link register, `x30`: the address at which the fiber resumes.
    pub lr: u64,
}

impl Default for ThreadContext {
    fn default() -> (c: Self)
        ensures
            c == <ThreadContext as Convention>::blank(),
    {
        ThreadContext {
            x19: 0,
            x20: 0,
            x21: 0,
            x22: 0,
            x23: 0,
            x24: 0,
            x25: 0,
            x26: 0,
            x27: 0,
            x28: 0,
            sp: 0,
            fp: 0,
            lr: 0,
        }
    }
}

impl Convention for ThreadContext {
    open spec fn blank() -> Self {
        ThreadContext {
            x19: 0,
            x20: 0,
            x21: 0,
            x22: 0,
            x23: 0,
            x24: 0,
            x25: 0,
            x26: 0,
            x27: 0,
            x28: 0,
            sp: 0,
            fp: 0,
            lr: 0,
        }
    }

    open spec fn stack_pointer(self) -> u64 {
        self.sp
    }

    open spec fn seeded(self, top: u64, entry: u64) -> Self {
        ThreadContext { sp: (top - 32) as u64, lr: entry, ..self }
    }

    open spec fn image(stack: Seq<u8>, top: int, entry: u64, guard: u64, skip: u64) -> Seq<u8> {
        with_word(stack, top - 32, guard)
    }

    /// The switch ends with a jump to the saved link register.
    open spec fn entry_point(self, stack: Seq<u8>, base: int) -> u64 {
        self.lr
    }

    /// Before it jumps, the switch loads the link register from the word
    /// that the stack pointer points at; that is where the body returns.
    open spec fn return_target(self, stack: Seq<u8>, base: int) -> u64 {
        word_at(stack, self.sp - base)
    }

    proof fn lemma_prepared(self, stack: Seq<u8>, base: int, entry: u64, guard: u64, skip: u64) {
        let top = aligned_top(base, stack.len() as int) - base;
        lemma_word_written(stack, top - 32, guard);
    }

    fn cleared() -> (c: Self) {
        ThreadContext {
            x19: 0,
            x20: 0,
            x21: 0,
            x22: 0,
            x23: 0,
            x24: 0,
            x25: 0,
            x26: 0,
            x27: 0,
            x28: 0,
            sp: 0,
            fp: 0,
            lr: 0,
        }
    }

    fn saved_stack_pointer(&self) -> (sp: u64) {
        self.sp
    }

    fn prepare(&mut self, stack: &mut Vec<u8>, base: usize, entry: u64, guard: u64, skip: u64) {
        let top: usize = align_top(base, stack.len());
        let at: usize = top - base;
        write_word(stack, at - 32, guard);
        self.sp = (top - 32) as u64;
        self.lr = entry;
    }
}

} // verus!
