//! The EVM operand stack.
//!
//! A LIFO stack of up to 1024 256-bit [`Word`]s, created empty for each
//! execution frame and mutated only by `push` and `pop`. Overflow and
//! underflow are reported by value, never by panicking, and a failed
//! operation leaves the stack unchanged.

use vstd::prelude::*;

use crate::word::Word;

verus! {

/// The maximum number of elements allowed on the EVM stack.
pub const STACK_MAX_SIZE: usize = 1024;

/// Errors that can occur during stack operations.
#[derive(Debug, PartialEq, Eq)]
pub enum StackError {
    /// Attempted to push onto a full stack.
    Overflow,
    /// Attempted to pop from an empty stack.
    Underflow,
}

/// The EVM operand stack; its abstract state is the sequence of held words,
/// bottom first.
pub struct Stack {
    stack: Vec<Word>,
}

impl View for Stack {
    type V = Seq<Word>;

    closed spec fn view(&self) -> Seq<Word> {
        self.stack@
    }
}

impl Stack {
    /// The stack never holds more than [`STACK_MAX_SIZE`] words. `new`
    /// establishes this bound and every operation preserves it.
    pub open spec fn wf(&self) -> bool {
        self@.len() <= STACK_MAX_SIZE
    }

    /// Creates a new, empty EVM stack.
    pub fn new() -> (r: Stack)
        ensures
            r@ == Seq::<Word>::empty(),
            r.wf(),
    {
        Stack { stack: Vec::with_capacity(STACK_MAX_SIZE) }
    }

    /// Pushes a value onto the stack; fails with `Overflow`, leaving the
    /// stack unchanged, when the stack already holds `STACK_MAX_SIZE` words.
    pub fn push(&mut self, value: Word) -> (r: Result<(), StackError>)
        ensures
            old(self)@.len() < STACK_MAX_SIZE ==> r == Ok::<(), StackError>(()) && final(self)@
                == old(self)@.push(value),
            old(self)@.len() >= STACK_MAX_SIZE ==> r == Err::<(), StackError>(StackError::Overflow)
                && final(self)@ == old(self)@,
            old(self).wf() ==> final(self).wf(),
    {
        if self.stack.len() >= STACK_MAX_SIZE {
            Err(StackError::Overflow)
        } else {
            self.stack.push(value);
            Ok(())
        }
    }

    /// Pops the top value off the stack and returns it; fails with
    /// `Underflow`, leaving the stack unchanged, when the stack is empty.
    pub fn pop(&mut self) -> (r: Result<Word, StackError>)
        ensures
            old(self)@.len() > 0 ==> r == Ok::<Word, StackError>(old(self)@.last())
                && final(self)@ == old(self)@.drop_last(),
            old(self)@.len() == 0 ==> r == Err::<Word, StackError>(StackError::Underflow)
                && final(self)@ == old(self)@,
            old(self).wf() ==> final(self).wf(),
    {
        match self.stack.pop() {
            Some(value) => Ok(value),
            None => Err(StackError::Underflow),
        }
    }

    /// Returns a reference to the top value on the stack, if any.
    pub fn peek(&self) -> (r: Option<&Word>)
        ensures
            self@.len() > 0 ==> (r matches Some(w) && *w == self@.last()),
            self@.len() == 0 ==> r is None,
    {
        self.stack.last()
    }

    /// Returns `true` if the stack is empty.
    pub fn is_empty(&self) -> (r: bool)
        ensures
            r <==> self@.len() == 0,
    {
        self.stack.is_empty()
    }

    /// Returns `true` if the stack is full.
    pub fn is_full(&self) -> (r: bool)
        ensures
            r <==> self@.len() == STACK_MAX_SIZE,
    {
        self.stack.len() == STACK_MAX_SIZE
    }

    /// Returns the current number of elements in the stack.
    pub fn len(&self) -> (r: usize)
        ensures
            r == self@.len(),
    {
        self.stack.len()
    }
}

/// Stack bound: a well-formed stack never holds more than
/// [`STACK_MAX_SIZE`] words, so a push onto a stack of `STACK_MAX_SIZE`
/// words — the 1025th consecutive push without an intervening pop — is
/// exactly the push that fails with `Overflow`.
pub proof fn lemma_stack_bounded(s: &Stack)
    requires
        s.wf(),
    ensures
        s@.len() <= STACK_MAX_SIZE,
{
}

/// One stack operation, as `push` and `pop` see it.
pub enum StackOp {
    Push(Word),
    Pop,
}

/// The stack length reached from length `len` by performing `ops` in
/// order: each push adds one unless the stack is full, each pop removes
/// one unless the stack is empty — exactly the step that the `ensures`
/// clauses of [`Stack::push`] and [`Stack::pop`] describe.
pub open spec fn stack_len_after(ops: Seq<StackOp>, len: int) -> int
    decreases ops.len(),
{
    if ops.len() == 0 {
        len
    } else {
        let next = match ops[0] {
            StackOp::Push(_) => if len < STACK_MAX_SIZE {
                len + 1
            } else {
                len
            },
            StackOp::Pop => if len > 0 {
                len - 1
            } else {
                len
            },
        };
        stack_len_after(ops.drop_first(), next)
    }
}

/// Length accounting: after any sequence of pushes and pops the length is
/// the running count of pushes less pops, clamped step by step at zero and
/// at the capacity — so it always stays within `0..=STACK_MAX_SIZE`.
pub proof fn lemma_stack_len_after_bounded(ops: Seq<StackOp>, len: int)
    requires
        0 <= len <= STACK_MAX_SIZE,
    ensures
        0 <= stack_len_after(ops, len) <= STACK_MAX_SIZE,
    decreases ops.len(),
{
    if ops.len() > 0 {
        let next = match ops[0] {
            StackOp::Push(_) => if len < STACK_MAX_SIZE {
                len + 1
            } else {
                len
            },
            StackOp::Pop => if len > 0 {
                len - 1
            } else {
                len
            },
        };
        lemma_stack_len_after_bounded(ops.drop_first(), next);
    }
}

} // verus!
