//! A register-based bytecode virtual machine.
//!
//! The machine fetches binary-encoded instructions from an immutable program
//! buffer, decodes them, and executes them against a fixed register file, a
//! flags register, a linear byte-addressable memory, and a bounded operand /
//! call stack.  Every component carries a mathematical model: decoding is
//! specified against the byte-level instruction format, execution against a
//! small-step semantics over ghost machine states, and the driver loop is
//! proved to report exactly the step count and outcome of that semantics.

pub mod cpu;
pub mod decoder;
pub mod error;
pub mod hardware_config;
pub mod instructions;
pub mod memory;
pub mod program;
pub mod stack;
pub mod vm;
pub mod word;

pub use vm::VM;
