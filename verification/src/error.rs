//! The error taxonomy of the virtual machine.
//!
//! Every fallible operation of the machine returns one of these variants; the
//! driver loop never retries or recovers, so the first failure of a run is
//! surfaced to the caller unmodified.

use vstd::prelude::*;

verus! {

/// Everything that can go wrong while decoding or executing a program.
#[derive(Debug, Clone, Copy, PartialEq, Eq, Structural)]
pub enum VmError {
    /// A memory access reached past the end of memory: the bytes
    /// `[address, address + size)` are not all below the capacity.
    MemoryOutOfBounds { address: usize, size: usize },
    /// A memory access of `size` bytes was made at an `address` that is not a
    /// multiple of `size`.
    MemoryNotAligned { address: usize, size: usize },
    /// A value was popped (or peeked) from an empty stack.
    StackUnderflow,
    /// A value was pushed while the stack already held `capacity` values.
    StackOverflow,
    /// The byte at the program counter is not a recognised opcode.
    InvalidOpcode { opcode: u8 },
    /// The program ends before the current instruction is complete, or the
    /// program counter points past the end of the program.
    InvalidInstruction,
    /// An instruction names a register index at or above the register count.
    InvalidRegister { register: u8 },
    /// A division or remainder instruction met a zero divisor.
    DivisionByZero,
}

} // verus!
