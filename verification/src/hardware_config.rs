//! Externally supplied configuration of the machine.

use vstd::prelude::*;

verus! {

/// Number of registers in the register file.  The decoder rejects any
/// instruction that names a register index at or above this count, and the
/// CPU's register accessor re-validates against it independently.
pub const REGISTERS_COUNT: u8 = 16;

} // verus!
