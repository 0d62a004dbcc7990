//! The memory side of a fiber: a fixed block of bytes used as a call stack.
//!
//! Stacks grow downward, so a fresh stack is prepared near its high end.
//! This module holds the arithmetic that is shared by every calling
//! convention: where the aligned top of a block lies, whether the reserved
//! header fits below it, and how a machine word is stored into the block.

use vstd::prelude::*;
use vstd::bytes::{
    lemma_auto_spec_u64_to_from_le_bytes,
    spec_u64_from_le_bytes,
    spec_u64_to_le_bytes,
    u64_from_le_bytes,
    u64_to_le_bytes,
};
use vstd::slice::slice_subrange;

verus! {

/// Size of the stack given to each fiber unless a caller asks otherwise.
pub const DEFAULT_STACK_SIZE: usize = 1024 * 1024 * 2;

/// Number of bytes below the aligned top that a fresh stack reserves for the
/// control-flow words written at spawn time.
pub const HEADER_SIZE: usize = 32;

/// Smallest block in which the header fits wherever the block starts.
pub const MIN_STACK_SIZE: usize = 47;

/// Width of a machine word in bytes.
pub const WORD_SIZE: usize = 8;

/// The highest 16-byte aligned address that is not above the end of a block
/// of `size` bytes starting at `base`.
pub open spec fn aligned_top(base: int, size: int) -> int {
    (base + size) - (base + size) % 16
}

/// Whether the reserved header lies inside a block of `size` bytes starting
/// at `base`.
pub open spec fn header_fits(base: int, size: int) -> bool {
    base + HEADER_SIZE <= aligned_top(base, size)
}

/// A byte sequence with the eight bytes from `offset` on replaced by the
/// little-endian form of `word`.
pub open spec fn with_word(bytes: Seq<u8>, offset: int, word: u64) -> Seq<u8> {
    Seq::new(
        bytes.len(),
        |i: int|
            if offset <= i < offset + 8 {
                spec_u64_to_le_bytes(word)[i - offset]
            } else {
                bytes[i]
            },
    )
}

/// The word whose little-endian form are the eight bytes from `offset` on.
pub open spec fn word_at(bytes: Seq<u8>, offset: int) -> u64 {
    spec_u64_from_le_bytes(bytes.subrange(offset, offset + 8))
}

/// A word that has been stored is read back.
pub proof fn lemma_word_written(bytes: Seq<u8>, offset: int, word: u64)
    requires
        0 <= offset,
        offset + 8 <= bytes.len(),
    ensures
        word_at(with_word(bytes, offset, word), offset) == word,
        with_word(bytes, offset, word).len() == bytes.len(),
{
    lemma_auto_spec_u64_to_from_le_bytes();
    assert(with_word(bytes, offset, word).subrange(offset, offset + 8) =~= spec_u64_to_le_bytes(
        word,
    ));
}

/// Storing a word leaves every word that does not overlap it as it was.
pub proof fn lemma_word_kept(bytes: Seq<u8>, offset: int, word: u64, other: int)
    requires
        0 <= offset,
        offset + 8 <= bytes.len(),
        0 <= other,
        other + 8 <= bytes.len(),
        other + 8 <= offset || offset + 8 <= other,
    ensures
        word_at(with_word(bytes, offset, word), other) == word_at(bytes, other),
{
    assert(with_word(bytes, offset, word).subrange(other, other + 8) =~= bytes.subrange(
        other,
        other + 8,
    ));
}

/// A block of at least `MIN_STACK_SIZE` bytes has room for the header at
/// every base address.
pub proof fn lemma_min_stack_fits(base: int, size: int)
    requires
        0 <= base,
        MIN_STACK_SIZE <= size,
    ensures
        header_fits(base, size),
        base <= aligned_top(base, size) - HEADER_SIZE,
        aligned_top(base, size) <= base + size,
        aligned_top(base, size) % 16 == 0,
{
}

/// A block of fewer than `MIN_STACK_SIZE` bytes has no room for the header
/// at some base address.
pub proof fn lemma_smaller_stack_may_not_fit(size: int)
    requires
        0 <= size < MIN_STACK_SIZE,
    ensures
        !header_fits(1, size),
{
}

/// The aligned top of a block, from the address of its first byte and its
/// length.
pub fn align_top(base: usize, size: usize) -> (top: usize)
    requires
        base + size <= usize::MAX,
    ensures
        top == aligned_top(base as int, size as int),
        top <= base + size,
        base + size < top + 16,
        top % 16 == 0,
{
    let end: usize = base + size;
    let top: usize = end & !0x0f;
    assert(end & !0x0f == end - end % 16) by (bit_vector);
    top
}

/// Stores `word` into `stack` at `offset`, low byte first.
pub fn write_word(stack: &mut Vec<u8>, offset: usize, word: u64)
    requires
        offset + WORD_SIZE <= old(stack).len(),
    ensures
        final(stack)@ == with_word(old(stack)@, offset as int, word),
        final(stack).len() == old(stack).len(),
{
    let bytes = u64_to_le_bytes(word);
    let mut k: usize = 0;
    while k < 8
        invariant
            k <= 8,
            bytes@ == spec_u64_to_le_bytes(word),
            bytes@.len() == 8,
            offset + 8 <= stack.len(),
            stack.len() == old(stack).len(),
            forall|i: int|
                0 <= i < stack.len() ==> stack@[i] == (if offset <= i < offset + k {
                    spec_u64_to_le_bytes(word)[i - offset]
                } else {
                    old(stack)@[i]
                }),
        decreases 8 - k,
    {
        stack.set(offset + k, bytes[k]);
        k = k + 1;
    }
    assert(stack@ =~= with_word(old(stack)@, offset as int, word));
}

/// Reads the word stored in `stack` at `offset`, low byte first.
pub fn read_word(stack: &[u8], offset: usize) -> (word: u64)
    requires
        offset + WORD_SIZE <= stack@.len(),
    ensures
        word == word_at(stack@, offset as int),
{
    let len: usize = stack.len();
    assert(offset + 8 <= len);
    u64_from_le_bytes(slice_subrange(stack, offset, offset + 8))
}

/// Address of the first byte of a stack block.
///
/// Calls `Vec::as_ptr`. The contract claims only what holds of every
/// allocation: the block does not wrap around the end of the address space.
/// Which address comes back is up to the allocator.
#[verifier::external_body]
pub(crate) fn block_address(stack: &Vec<u8>) -> (base: usize)
    ensures
        base + stack@.len() <= usize::MAX,
{
    stack.as_ptr() as usize
}

} // verus!
