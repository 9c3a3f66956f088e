//! The operand stack of one frame: 256-bit words, capacity exactly 1024.
//! A push into a full stack and a pop from an empty one fail with the
//! matching halt reason and leave the stack untouched.

use vstd::prelude::*;
use crate::u256::U256;
use crate::result::HaltReason;

verus! {

/// The operand stack of a frame.
#[derive(Debug, Clone, PartialEq, Eq)]
pub struct Stack {
    items: Vec<U256>,
}

impl Stack {
    /// The words on the stack, bottom first.
    pub closed spec fn view(self) -> Seq<U256> {
        self.items@
    }

    /// The stack never exceeds its capacity.
    pub open spec fn well_formed(self) -> bool {
        self@.len() <= crate::MAX_STACK_SIZE
    }

    /// An empty stack.
    pub fn new() -> (r: Stack)
        ensures
            r@.len() == 0,
            r.well_formed(),
    {
        Stack { items: Vec::new() }
    }

    /// The current height.
    pub fn len(&self) -> (r: usize)
        ensures
            r == self@.len(),
    {
        self.items.len()
    }

    /// The word at depth `n` (0 is the top), for callers that already
    /// know the stack is deep enough.
    pub fn peek(&self, n: usize) -> (r: U256)
        requires
            n < self@.len(),
        ensures
            r == self@[self@.len() - 1 - n],
    {
        self.items[self.items.len() - 1 - n]
    }

    /// Push a word; a full stack overflows and is left unchanged.
    pub fn push(&mut self, value: U256) -> (r: Result<(), HaltReason>)
        requires
            old(self).well_formed(),
        ensures
            final(self).well_formed(),
            old(self)@.len() < crate::MAX_STACK_SIZE ==> r == Ok::<(), HaltReason>(())
                && final(self)@ == old(self)@.push(value),
            old(self)@.len() == crate::MAX_STACK_SIZE ==> r == Err::<(), HaltReason>(
                HaltReason::StackOverflow,
            ) && final(self)@ == old(self)@,
    {
        if self.items.len() < crate::MAX_STACK_SIZE {
            self.items.push(value);
            Ok(())
        } else {
            Err(HaltReason::StackOverflow)
        }
    }

    /// Pop the top word; an empty stack underflows and is left unchanged.
    pub fn pop(&mut self) -> (r: Result<U256, HaltReason>)
        requires
            old(self).well_formed(),
        ensures
            final(self).well_formed(),
            old(self)@.len() > 0 ==> r == Ok::<U256, HaltReason>(old(self)@.last())
                && final(self)@ == old(self)@.drop_last(),
            old(self)@.len() == 0 ==> r == Err::<U256, HaltReason>(HaltReason::StackUnderflow)
                && final(self)@ == old(self)@,
    {
        if self.items.len() > 0 {
            let v = self.items.pop().unwrap();
            Ok(v)
        } else {
            Err(HaltReason::StackUnderflow)
        }
    }

    /// Duplicate the word at depth `n - 1`, as `DUP<n>` does.
    pub fn dup(&mut self, n: usize) -> (r: Result<(), HaltReason>)
        requires
            old(self).well_formed(),
            1 <= n <= 16,
        ensures
            final(self).well_formed(),
            old(self)@.len() < n ==> r == Err::<(), HaltReason>(HaltReason::StackUnderflow)
                && final(self)@ == old(self)@,
            old(self)@.len() >= n && old(self)@.len() == crate::MAX_STACK_SIZE ==> r == Err::<
                (),
                HaltReason,
            >(HaltReason::StackOverflow) && final(self)@ == old(self)@,
            old(self)@.len() >= n && old(self)@.len() < crate::MAX_STACK_SIZE ==> r == Ok::<
                (),
                HaltReason,
            >(()) && final(self)@ == old(self)@.push(old(self)@[old(self)@.len() - n]),
    {
        if self.items.len() < n {
            Err(HaltReason::StackUnderflow)
        } else if self.items.len() == crate::MAX_STACK_SIZE {
            Err(HaltReason::StackOverflow)
        } else {
            let v = self.items[self.items.len() - n];
            self.items.push(v);
            Ok(())
        }
    }

    /// Exchange the top word with the one at depth `n`, as `SWAP<n>`
    /// does.
    pub fn swap(&mut self, n: usize) -> (r: Result<(), HaltReason>)
        requires
            old(self).well_formed(),
            1 <= n <= 16,
        ensures
            final(self).well_formed(),
            old(self)@.len() < n + 1 ==> r == Err::<(), HaltReason>(HaltReason::StackUnderflow)
                && final(self)@ == old(self)@,
            old(self)@.len() >= n + 1 ==> r == Ok::<(), HaltReason>(())
                && final(self)@ == old(self)@.update(
                old(self)@.len() - 1,
                old(self)@[old(self)@.len() - 1 - n],
            ).update(old(self)@.len() - 1 - n, old(self)@.last()),
    {
        if self.items.len() < n + 1 {
            Err(HaltReason::StackUnderflow)
        } else {
            let top = self.items.len() - 1;
            let other = self.items.len() - 1 - n;
            let a = self.items[top];
            let b = self.items[other];
            self.items.set(top, b);
            self.items.set(other, a);
            Ok(())
        }
    }
}

} // verus!
