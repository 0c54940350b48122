//! The bounded operand / call stack of the machine.
//!
//! A strict LIFO sequence with a capacity fixed at construction.  Pushing on
//! a full stack and popping (or peeking) an empty one fail without changing
//! the stack.

use crate::error::VmError;
use vstd::prelude::*;

verus! {

/// A bounded last-in-first-out stack.
pub struct Stack<T> {
    data: Vec<T>,
    capacity: usize,
}

impl<T> View for Stack<T> {
    type V = Seq<T>;

    /// The held values, bottom first.
    closed spec fn view(&self) -> Seq<T> {
        self.data@
    }
}

impl<T> Stack<T> {
    /// The capacity the stack was constructed with.
    pub closed spec fn cap(&self) -> nat {
        self.capacity as nat
    }

    /// The stack never holds more values than its capacity.
    pub open spec fn wf(&self) -> bool {
        self@.len() <= self.cap()
    }

    /// Creates an empty stack that can hold at most `capacity` values.
    pub fn new(capacity: usize) -> (s: Self)
        ensures
            s@ == Seq::<T>::empty(),
            s.cap() == capacity,
            s.wf(),
    {
        Self { data: Vec::with_capacity(capacity), capacity }
    }

    /// Pushes a value on top of the stack; fails with `StackOverflow`, and
    /// leaves the stack unchanged, exactly when the stack is already full.
    pub fn push(&mut self, value: T) -> (r: Result<(), VmError>)
        requires
            old(self).wf(),
        ensures
            final(self).wf(),
            final(self).cap() == old(self).cap(),
            if old(self)@.len() < old(self).cap() {
                r == Ok::<(), VmError>(()) && final(self)@ == old(self)@.push(value)
            } else {
                r == Err::<(), VmError>(VmError::StackOverflow) && final(self)@ == old(self)@
            },
    {
        if self.data.len() == self.capacity {
            return Err(VmError::StackOverflow);
        }
        self.data.push(value);
        Ok(())
    }

    /// Pops the most recently pushed value; fails with `StackUnderflow`, and
    /// leaves the stack unchanged, exactly when the stack is empty.
    pub fn pop(&mut self) -> (r: Result<T, VmError>)
        ensures
            final(self).cap() == old(self).cap(),
            old(self).wf() ==> final(self).wf(),
            if old(self)@.len() > 0 {
                r matches Ok(v) && v == old(self)@.last() && final(self)@ == old(self)@.drop_last()
            } else {
                r == Err::<T, VmError>(VmError::StackUnderflow) && final(self)@ == old(self)@
            },
    {
        if self.data.len() == 0 {
            return Err(VmError::StackUnderflow);
        }
        match self.data.pop() {
            Some(v) => Ok(v),
            None => Err(VmError::StackUnderflow),
        }
    }

    /// Borrows the most recently pushed value; fails with `StackUnderflow`
    /// exactly when the stack is empty.
    pub fn peek(&self) -> (r: Result<&T, VmError>)
        ensures
            if self@.len() > 0 {
                r matches Ok(v) && v == self@.last()
            } else {
                r matches Err(e) && e == VmError::StackUnderflow
            },
    {
        if self.data.len() == 0 {
            return Err(VmError::StackUnderflow);
        }
        Ok(&self.data[self.data.len() - 1])
    }

    /// The number of values currently held.
    pub fn len(&self) -> (n: usize)
        ensures
            n == self@.len(),
    {
        self.data.len()
    }

    /// Whether the stack holds no values.
    pub fn is_empty(&self) -> (b: bool)
        ensures
            b == (self@.len() == 0),
    {
        self.data.len() == 0
    }

    /// Discards every held value; the capacity is kept.
    pub fn clear(&mut self)
        ensures
            final(self)@ == Seq::<T>::empty(),
            final(self).cap() == old(self).cap(),
            final(self).wf(),
    {
        self.data.clear();
    }

    /// The capacity the stack was constructed with.
    pub fn capacity(&self) -> (n: usize)
        ensures
            n == self.cap(),
    {
        self.capacity
    }
}

/// Values leave the stack in exact reverse push order: a push followed by a
/// pop returns the value just pushed and restores the previous contents.
/// Together with the contracts of `push` and `pop` this pins the strict LIFO
/// behaviour of the stack.
pub proof fn lemma_push_pop_lifo<T>(s: Seq<T>, value: T)
    ensures
        s.push(value).last() == value,
        s.push(value).drop_last() == s,
{
    assert(s.push(value).drop_last() =~= s);
}

} // verus!
