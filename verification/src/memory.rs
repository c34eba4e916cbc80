//! The EVM volatile memory.
//!
//! A byte-addressable, zero-initialized buffer, organized internally as
//! 256-bit [`Word`]s: byte address `a` lives at intra-word offset `a % 32`
//! of word `a / 32`, with big-endian byte order inside each word.
//! Memory grows on demand up to a hard ceiling of
//! [`MEMORY_MAX_SIZE`] words ([`MEMORY_MAX_BYTES`] bytes) and never shrinks
//! within a frame. The quadratic gas-cost formula for a given size lives
//! here as [`spec_memory_cost`]; the gas meter charges its increments.

use vstd::arithmetic::div_mod::lemma_div_is_ordered;
use vstd::prelude::*;

use crate::word::spec_zero_word;
use crate::word::Word;

verus! {

/// The maximum number of words allowed in the EVM memory.
pub const MEMORY_MAX_SIZE: usize = 1024 * 1024;

/// The maximum memory size in bytes: 32 bytes for each word.
pub const MEMORY_MAX_BYTES: usize = 32 * MEMORY_MAX_SIZE;

/// Errors that can occur during memory operations.
#[derive(Debug, PartialEq, Eq)]
pub enum MemoryError {
    /// Attempted to read beyond the current size, or write beyond the
    /// maximum allowed size.
    OutOfBounds,
    /// Memory expansion would exceed the maximum allowed size.
    ExpansionLimit,
    /// The provided address is not word-aligned for a word operation.
    InvalidAddress,
}

/// The number of words needed to hold `size_in_bytes` bytes.
pub open spec fn spec_word_count(size_in_bytes: int) -> int {
    (size_in_bytes + 31) / 32
}

/// The cumulative gas cost of a memory of `size_in_bytes` bytes, per the
/// quadratic schedule: for `a` words, `3*a + a*a/512` (integer division).
pub open spec fn spec_memory_cost(size_in_bytes: int) -> int {
    3 * spec_word_count(size_in_bytes) + spec_word_count(size_in_bytes) * spec_word_count(
        size_in_bytes,
    ) / 512
}

/// The EVM memory. Its abstract state is the sequence of held words
/// together with the current logical size in bytes.
pub struct Memory {
    /// The underlying storage, organized as 256-bit words.
    words: Vec<Word>,
    /// The current size of memory in bytes.
    size: usize,
}

impl View for Memory {
    type V = Seq<Word>;

    closed spec fn view(&self) -> Seq<Word> {
        self.words@
    }
}

impl Memory {
    /// The current size of memory in bytes.
    pub closed spec fn spec_size(&self) -> usize {
        self.size
    }

    /// The size never exceeds the ceiling, and the buffer holds exactly the
    /// words needed for the current size. `new` establishes this and every
    /// operation preserves it.
    pub open spec fn wf(&self) -> bool {
        &&& self.spec_size() <= MEMORY_MAX_BYTES
        &&& self@.len() == spec_word_count(self.spec_size() as int)
    }

    /// The word holding byte address `32 * wi`; zero outside the buffer,
    /// matching the zero-initialized growth policy.
    pub open spec fn word_at(&self, wi: int) -> Word {
        if 0 <= wi < self@.len() {
            self@[wi]
        } else {
            spec_zero_word()
        }
    }

    /// The byte at address `a`. Bytes sit big-endian inside each word,
    /// consistent with the consensus word representation: the byte at the
    /// lowest address of a word is its most significant, so intra-word
    /// offset `a % 32` is word byte `31 - a % 32`.
    pub open spec fn byte_at(&self, a: int) -> u8 {
        self.word_at(a / 32).spec_byte(31 - (a % 32))
    }

    /// What a byte write at `address` does: the size grows to cover the
    /// touched address, the addressed byte holds `value`, and every other
    /// byte is unchanged.
    pub open spec fn write_byte_post(pre: Memory, post: Memory, address: int, value: u8) -> bool {
        &&& post.spec_size() == (if address + 1 > pre.spec_size() {
            address + 1
        } else {
            pre.spec_size() as int
        })
        &&& post.byte_at(address) == value
        &&& forall|i: int| 0 <= i && i != address ==> post.byte_at(i) == pre.byte_at(i)
    }

    /// What a word write at `address` does: the size grows to cover the
    /// touched word, the addressed word holds `value`, and every other word
    /// is unchanged.
    pub open spec fn write_word_post(pre: Memory, post: Memory, address: int, value: Word) -> bool {
        &&& post.spec_size() == (if address + 32 > pre.spec_size() {
            address + 32
        } else {
            pre.spec_size() as int
        })
        &&& post.word_at(address / 32) == value
        &&& forall|wi: int| wi != address / 32 ==> post.word_at(wi) == pre.word_at(wi)
    }

    /// Creates a new, empty EVM memory; every byte of it reads as zero.
    pub fn new() -> (r: Memory)
        ensures
            r.wf(),
            r.spec_size() == 0,
            r@ == Seq::<Word>::empty(),
            forall|i: int| #[trigger] r.byte_at(i) == 0,
    {
        let r = Memory { words: Vec::new(), size: 0 };
        proof {
            crate::word::lemma_zero_word_bytes();
        }
        r
    }

    /// Reads the byte at `address`; fails with `OutOfBounds` when the
    /// address is at or beyond the current size.
    pub fn read_byte(&self, address: usize) -> (r: Result<u8, MemoryError>)
        requires
            self.wf(),
        ensures
            address < self.spec_size() ==> r == Ok::<u8, MemoryError>(self.byte_at(address as int)),
            address >= self.spec_size() ==> r == Err::<u8, MemoryError>(MemoryError::OutOfBounds),
    {
        if address >= self.size {
            return Err(MemoryError::OutOfBounds);
        }
        let word_index = address / 32;
        let byte_offset = address % 32;
        proof {
            assert(self.size <= 32 * self@.len());
            assert(32 * (address as int / 32) <= address);
        }
        let word = self.words[word_index];
        Ok(word.byte(31 - byte_offset))
    }

    /// Writes `value` at `address`, growing the memory (zero-filled) to
    /// cover the touched byte; fails with `OutOfBounds`, leaving the memory
    /// unchanged, when the address is at or beyond [`MEMORY_MAX_BYTES`].
    pub fn write_byte(&mut self, address: usize, value: u8) -> (r: Result<(), MemoryError>)
        requires
            old(self).wf(),
        ensures
            final(self).wf(),
            final(self).spec_size() >= old(self).spec_size(),
            address < MEMORY_MAX_BYTES ==> r == Ok::<(), MemoryError>(())
                && Memory::write_byte_post(*old(self), *final(self), address as int, value),
            address >= MEMORY_MAX_BYTES ==> r == Err::<(), MemoryError>(MemoryError::OutOfBounds)
                && final(self)@ == old(self)@ && final(self).spec_size() == old(self).spec_size(),
    {
        if address >= MEMORY_MAX_BYTES {
            return Err(MemoryError::OutOfBounds);
        }
        let word_index = address / 32;
        let byte_offset = address % 32;
        let ghost pre_words = self.words@;
        let ghost pre_size = self.size;
        while self.words.len() <= word_index
            invariant
                self.size == pre_size,
                self.words@.len() >= pre_words.len(),
                self.words@.len() <= word_index + 1 || self.words@.len() == pre_words.len(),
                forall|i: int| 0 <= i < pre_words.len() ==> self.words@[i] == pre_words[i],
                forall|i: int|
                    pre_words.len() <= i < self.words@.len() ==> self.words@[i]
                        == spec_zero_word(),
            decreases word_index + 1 - self.words.len(),
        {
            self.words.push(Word::zero());
        }
        let current = self.words[word_index];
        let updated = current.with_byte(31 - byte_offset, value);
        self.words.set(word_index, updated);
        let new_size = address + 1;
        if new_size > self.size {
            self.size = new_size;
        }
        proof {
            let a = address as int;
            let wi = a / 32;
            let off = a % 32;
            assert(a == 32 * wi + off);
            assert(32 * spec_word_count(pre_size as int) <= pre_size + 31);
            assert(current == old(self).word_at(wi));
            assert(self.byte_at(a) == value);
            assert forall|i: int| 0 <= i && i != a implies self.byte_at(i) == old(self).byte_at(
                i,
            ) by {
                assert(i == 32 * (i / 32) + i % 32);
                if i / 32 == wi {
                    assert(self.word_at(i / 32) == updated);
                    assert(i % 32 != off);
                } else {
                    assert(self.word_at(i / 32) == old(self).word_at(i / 32));
                }
            }
        }
        Ok(())
    }

    /// Reads the 256-bit word at `address`; fails with `InvalidAddress`
    /// when the address is not word-aligned, and with `OutOfBounds` when an
    /// aligned address is at or beyond the current size.
    pub fn read_word(&self, address: usize) -> (r: Result<Word, MemoryError>)
        requires
            self.wf(),
        ensures
            address % 32 != 0 ==> r == Err::<Word, MemoryError>(MemoryError::InvalidAddress),
            address % 32 == 0 && address >= self.spec_size() ==> r == Err::<Word, MemoryError>(
                MemoryError::OutOfBounds,
            ),
            address % 32 == 0 && address < self.spec_size() ==> r == Ok::<Word, MemoryError>(
                self.word_at(address as int / 32),
            ),
    {
        if address % 32 != 0 {
            return Err(MemoryError::InvalidAddress);
        }
        if address >= self.size {
            return Err(MemoryError::OutOfBounds);
        }
        let word_index = address / 32;
        proof {
            assert(self.size <= 32 * self@.len());
            assert(32 * (address as int / 32) <= address);
        }
        Ok(self.words[word_index])
    }

    /// Writes a 256-bit word at `address`, growing the memory (zero-filled)
    /// to cover the touched word; fails with `InvalidAddress` when the
    /// address is not word-aligned, and with `OutOfBounds` when an aligned
    /// address is at or beyond [`MEMORY_MAX_BYTES`]. A failure leaves the
    /// memory unchanged.
    pub fn write_word(&mut self, address: usize, value: Word) -> (r: Result<(), MemoryError>)
        requires
            old(self).wf(),
        ensures
            final(self).wf(),
            final(self).spec_size() >= old(self).spec_size(),
            address % 32 != 0 ==> r == Err::<(), MemoryError>(MemoryError::InvalidAddress)
                && final(self)@ == old(self)@ && final(self).spec_size() == old(self).spec_size(),
            address % 32 == 0 && address >= MEMORY_MAX_BYTES ==> r == Err::<(), MemoryError>(
                MemoryError::OutOfBounds,
            ) && final(self)@ == old(self)@ && final(self).spec_size() == old(self).spec_size(),
            address % 32 == 0 && address < MEMORY_MAX_BYTES ==> r == Ok::<(), MemoryError>(())
                && Memory::write_word_post(*old(self), *final(self), address as int, value),
    {
        if address % 32 != 0 {
            return Err(MemoryError::InvalidAddress);
        }
        if address >= MEMORY_MAX_BYTES {
            return Err(MemoryError::OutOfBounds);
        }
        let word_index = address / 32;
        let ghost pre_words = self.words@;
        let ghost pre_size = self.size;
        while self.words.len() <= word_index
            invariant
                self.size == pre_size,
                self.words@.len() >= pre_words.len(),
                self.words@.len() <= word_index + 1 || self.words@.len() == pre_words.len(),
                forall|i: int| 0 <= i < pre_words.len() ==> self.words@[i] == pre_words[i],
                forall|i: int|
                    pre_words.len() <= i < self.words@.len() ==> self.words@[i]
                        == spec_zero_word(),
            decreases word_index + 1 - self.words.len(),
        {
            self.words.push(Word::zero());
        }
        self.words.set(word_index, value);
        let new_size = address + 32;
        if new_size > self.size {
            self.size = new_size;
        }
        proof {
            let a = address as int;
            let wi = a / 32;
            assert(a == 32 * wi);
            assert(32 * spec_word_count(pre_size as int) <= pre_size + 31);
        }
        Ok(())
    }

    /// Expands the memory to at least `new_size` bytes, zero-filling the
    /// new region; a no-op if the memory is already that large. Fails with
    /// `ExpansionLimit`, leaving the memory unchanged, when `new_size`
    /// exceeds [`MEMORY_MAX_BYTES`].
    pub fn expand(&mut self, new_size: usize) -> (r: Result<(), MemoryError>)
        requires
            old(self).wf(),
        ensures
            final(self).wf(),
            final(self).spec_size() >= old(self).spec_size(),
            new_size > MEMORY_MAX_BYTES ==> r == Err::<(), MemoryError>(MemoryError::ExpansionLimit)
                && final(self)@ == old(self)@ && final(self).spec_size() == old(self).spec_size(),
            new_size <= MEMORY_MAX_BYTES ==> r == Ok::<(), MemoryError>(())
                && final(self).spec_size() == (if new_size > old(self).spec_size() {
                new_size as int
            } else {
                old(self).spec_size() as int
            }) && forall|wi: int| final(self).word_at(wi) == old(self).word_at(wi),
    {
        if new_size > MEMORY_MAX_BYTES {
            return Err(MemoryError::ExpansionLimit);
        }
        let new_word_len = (new_size + 31) / 32;
        let ghost pre_words = self.words@;
        let ghost pre_size = self.size;
        while self.words.len() < new_word_len
            invariant
                self.size == pre_size,
                self.words@.len() >= pre_words.len(),
                self.words@.len() <= new_word_len || self.words@.len() == pre_words.len(),
                forall|i: int| 0 <= i < pre_words.len() ==> self.words@[i] == pre_words[i],
                forall|i: int|
                    pre_words.len() <= i < self.words@.len() ==> self.words@[i]
                        == spec_zero_word(),
            decreases new_word_len - self.words.len(),
        {
            self.words.push(Word::zero());
        }
        if new_size > self.size {
            self.size = new_size;
        }
        proof {
            if new_size <= pre_size {
                lemma_word_count_monotonic(new_size as int, pre_size as int);
            } else {
                lemma_word_count_monotonic(pre_size as int, new_size as int);
            }
        }
        Ok(())
    }

    /// Returns the current size of memory in bytes.
    pub fn size(&self) -> (r: usize)
        ensures
            r == self.spec_size(),
    {
        self.size
    }

    /// The cumulative gas cost for the current memory size, per the
    /// quadratic schedule of [`spec_memory_cost`].
    pub fn gas_cost(&self) -> (r: u64)
        requires
            self.wf(),
        ensures
            r == spec_memory_cost(self.spec_size() as int),
    {
        let a = (self.size + 31) / 32;
        proof {
            lemma_word_count_monotonic(self.size as int, MEMORY_MAX_BYTES as int);
            assert((a as u64) * (a as u64) <= 0x100000 * 0x100000) by (nonlinear_arith)
                requires
                    a as u64 <= 0x100000,
            ;
        }
        let a64 = a as u64;
        3 * a64 + (a64 * a64) / 512
    }
}

/// If one size is at most another, it needs at most as many words.
pub proof fn lemma_word_count_monotonic(s1: int, s2: int)
    requires
        s1 <= s2,
    ensures
        spec_word_count(s1) <= spec_word_count(s2),
{
    lemma_div_is_ordered(s1 + 31, s2 + 31, 32);
}

/// Memory cost monotonicity: the cumulative cost never decreases as the
/// size grows.
pub proof fn lemma_memory_cost_monotonic(s1: int, s2: int)
    requires
        0 <= s1 <= s2,
    ensures
        spec_memory_cost(s1) <= spec_memory_cost(s2),
{
    lemma_word_count_monotonic(s1, s2);
    let w1 = spec_word_count(s1);
    let w2 = spec_word_count(s2);
    assert(w1 * w1 <= w2 * w2) by (nonlinear_arith)
        requires
            0 <= w1 <= w2,
    ;
    lemma_div_is_ordered(w1 * w1, w2 * w2, 512);
}

/// Byte round trip: any state a byte write can leave behind covers the
/// written address and holds the written value there, so a subsequent
/// `read_byte` at that address returns exactly the written byte.
pub proof fn lemma_write_byte_then_read(pre: Memory, post: Memory, address: int, value: u8)
    requires
        0 <= address,
        Memory::write_byte_post(pre, post, address, value),
    ensures
        address < post.spec_size(),
        post.byte_at(address) == value,
{
}

/// Word round trip: any state a word write can leave behind covers the
/// written word and holds the written value there, so a subsequent
/// `read_word` at that address returns exactly the written word.
pub proof fn lemma_write_word_then_read(pre: Memory, post: Memory, address: int, value: Word)
    requires
        0 <= address,
        Memory::write_word_post(pre, post, address, value),
    ensures
        address < post.spec_size(),
        post.word_at(address / 32) == value,
{
}

} // verus!
