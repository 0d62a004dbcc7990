//! The stack-return convention: the return address is the word on top of
//! the stack.
//!
//! A fresh stack holds, from high to low address, the guard routine, a
//! routine that only returns, and the body. The saved stack pointer points
//! at the body's address, so the `ret` that ends a context switch jumps into
//! the body; when the body returns it passes through the extra hop, which
//! keeps the stack aligned, and lands in the guard.

use vstd::prelude::*;
use crate::convention::Convention;
use crate::stack::{
    align_top,
    aligned_top,
    header_fits,
    lemma_word_kept,
    lemma_word_written,
    with_word,
    word_at,
    write_word,
};

verus! {

/// The registers that survive a call under the System V x86-64 ABI, in the
/// order in which a context switch stores them.
#[derive(Debug)]
pub struct ThreadContext {
    pub rsp: u64,
    pub r15: u64,
    pub r14: u64,
    pub r13: u64,
    pub r12: u64,
    pub rbx: u64,
    pub rbp: u64,
}

impl Default for ThreadContext {
    fn default() -> (c: Self)
        ensures
            c == <ThreadContext as Convention>::blank(),
    {
        ThreadContext { rsp: 0, r15: 0, r14: 0, r13: 0, r12: 0, rbx: 0, rbp: 0 }
    }
}

impl ThreadContext {
    /// The address of the extra hop between a body and the guard routine:
    /// the word just above the body's address on a fresh stack.
    pub open spec fn hop(self, stack: Seq<u8>, base: int) -> u64 {
        word_at(stack, self.rsp - base + 8)
    }

    /// On a prepared stack the body is entered with the stack pointer eight
    /// bytes past a 16-byte boundary, as after a call, and returns into the
    /// routine that only returns.
    pub proof fn lemma_hop(self, stack: Seq<u8>, base: int, entry: u64, guard: u64, skip: u64)
        requires
            0 <= base,
            base + stack.len() <= u64::MAX,
            header_fits(base, stack.len() as int),
        ensures
            ({
                let top = aligned_top(base, stack.len() as int);
                let ctx = self.seeded(top as u64, entry);
                let image = Self::image(stack, top - base, entry, guard, skip);
                &&& ctx.hop(image, base) == skip
                &&& (ctx.rsp + 8) % 16 == 8
            }),
    {
        let top = aligned_top(base, stack.len() as int) - base;
        let a = with_word(stack, top - 16, guard);
        let b = with_word(a, top - 24, skip);
        lemma_word_written(stack, top - 16, guard);
        lemma_word_written(a, top - 24, skip);
        lemma_word_kept(b, top - 32, entry, top - 24);
    }
}

impl Convention for ThreadContext {
    open spec fn blank() -> Self {
        ThreadContext { rsp: 0, r15: 0, r14: 0, r13: 0, r12: 0, rbx: 0, rbp: 0 }
    }

    open spec fn stack_pointer(self) -> u64 {
        self.rsp
    }

    open spec fn seeded(self, top: u64, entry: u64) -> Self {
        ThreadContext { rsp: (top - 32) as u64, ..self }
    }

    open spec fn image(stack: Seq<u8>, top: int, entry: u64, guard: u64, skip: u64) -> Seq<u8> {
        with_word(with_word(with_word(stack, top - 16, guard), top - 24, skip), top - 32, entry)
    }

    /// The switch ends with a return, which jumps to the word that the
    /// stack pointer points at.
    open spec fn entry_point(self, stack: Seq<u8>, base: int) -> u64 {
        word_at(stack, self.rsp - base)
    }

    /// The body's return jumps to the word above its own address, which is
    /// `hop`, a routine that only returns; that return jumps to the word
    /// above it.
    open spec fn return_target(self, stack: Seq<u8>, base: int) -> u64 {
        word_at(stack, self.rsp - base + 16)
    }

    proof fn lemma_prepared(self, stack: Seq<u8>, base: int, entry: u64, guard: u64, skip: u64) {
        let top = aligned_top(base, stack.len() as int) - base;
        let a = with_word(stack, top - 16, guard);
        let b = with_word(a, top - 24, skip);
        lemma_word_written(stack, top - 16, guard);
        lemma_word_written(a, top - 24, skip);
        lemma_word_written(b, top - 32, entry);
        lemma_word_kept(a, top - 24, skip, top - 16);
        lemma_word_kept(b, top - 32, entry, top - 16);
    }

    fn cleared() -> (c: Self) {
        ThreadContext { rsp: 0, r15: 0, r14: 0, r13: 0, r12: 0, rbx: 0, rbp: 0 }
    }

    fn saved_stack_pointer(&self) -> (sp: u64) {
        self.rsp
    }

    fn prepare(&mut self, stack: &mut Vec<u8>, base: usize, entry: u64, guard: u64, skip: u64) {
        let top: usize = align_top(base, stack.len());
        let at: usize = top - base;
        write_word(stack, at - 16, guard);
        write_word(stack, at - 24, skip);
        write_word(stack, at - 32, entry);
        self.rsp = (top - 32) as u64;
    }
}

} // verus!
