//! The execution engine of the machine.
//!
//! The CPU owns the register file, the status flags and the program counter.
//! Executing a decoded instruction mutates registers, flags, memory and the
//! stack exactly as the small-step semantics [`cpu_step`] specifies, and
//! reports the resulting program-counter transition as an explicit value:
//! `Advance`, `JumpTo` or `Halt`.  The caller applies the transition, so a
//! jump is never additionally advanced.
//!
//! Arithmetic uses wraparound semantics on the 32-bit width: the `overflow`
//! flag is set exactly when the operation wrapped, and `zero` and `negative`
//! always describe the stored result.  The `carry` flag is declared but
//! never computed by any instruction.

use crate::error::VmError;
use crate::hardware_config::REGISTERS_COUNT;
use crate::instructions::Instruction;
use crate::memory::{spec_read, spec_write, MemValue, Memory};
use crate::stack::Stack;
use crate::word::{bits_to_i32, i32_of_u32, i32_to_bits, u32_le_bytes, u32_of_i32, u32_of_le};
use vstd::arithmetic::div_mod::{
    lemma_div_is_ordered, lemma_div_is_ordered_by_denominator, lemma_div_pos_is_pos,
    lemma_fundamental_div_mod, lemma_mod_division_less_than_divisor,
};
use vstd::prelude::*;

verus! {

/// Condition bits set by arithmetic and logical instructions and read by
/// conditional jumps.  `carry` is declared but never computed.
#[derive(Debug, Clone, Copy, PartialEq, Eq, Structural)]
pub struct StatusFlags {
    pub zero: bool,
    pub carry: bool,
    pub overflow: bool,
    pub negative: bool,
}

impl StatusFlags {
    /// Clears the zero, overflow and negative flags; `carry` is untouched,
    /// consistent with `carry` being otherwise unused.
    pub fn clear(&mut self)
        ensures
            *final(self) == (StatusFlags {
                zero: false,
                carry: old(self).carry,
                overflow: false,
                negative: false,
            }),
    {
        self.zero = false;
        self.overflow = false;
        self.negative = false;
    }
}

impl Default for StatusFlags {
    /// All four flags cleared.
    fn default() -> (flags: StatusFlags)
        ensures
            flags == (StatusFlags { zero: false, carry: false, overflow: false, negative: false }),
    {
        StatusFlags { zero: false, carry: false, overflow: false, negative: false }
    }
}

/// How the program counter moves after an instruction executes: advance by
/// the instruction's encoded length, jump to an address, or halt the run.
#[derive(Debug, Clone, Copy, PartialEq, Eq, Structural)]
pub enum PcTransition {
    /// Advance the program counter by the executed instruction's length.
    Advance,
    /// Set the program counter to this address.
    JumpTo(u32),
    /// Stop the run: a non-faulting termination signal.
    Halt,
}

/// The mathematical state of the CPU: register values, flags and the
/// program counter.
pub ghost struct CpuView {
    pub regs: Seq<i32>,
    pub flags: StatusFlags,
    pub pc: nat,
}

impl CpuView {
    /// The register file has exactly the configured number of registers.
    pub open spec fn wf(self) -> bool {
        self.regs.len() == REGISTERS_COUNT
    }
}

/// The CPU state at initialisation: all registers zero, all flags clear,
/// program counter zero.
pub open spec fn init_cpu_view() -> CpuView {
    CpuView {
        regs: Seq::new(REGISTERS_COUNT as nat, |i| 0i32),
        flags: StatusFlags { zero: false, carry: false, overflow: false, negative: false },
        pc: 0,
    }
}

/// The wrapped 32-bit two's-complement value of an arbitrary integer.
pub open spec fn wrap_i32(x: int) -> i32 {
    if x % 0x1_0000_0000 > i32::MAX {
        (x % 0x1_0000_0000 - 0x1_0000_0000) as i32
    } else {
        (x % 0x1_0000_0000) as i32
    }
}

/// The wraparound sum of two register values.
pub open spec fn add_wrapped(a: i32, b: i32) -> i32 {
    if a + b > i32::MAX {
        (a + b - 0x1_0000_0000) as i32
    } else if a + b < i32::MIN {
        (a + b + 0x1_0000_0000) as i32
    } else {
        (a + b) as i32
    }
}

/// Whether the sum of two register values wraps.
pub open spec fn add_overflows(a: i32, b: i32) -> bool {
    a + b > i32::MAX || a + b < i32::MIN
}

/// The wraparound difference of two register values.
pub open spec fn sub_wrapped(a: i32, b: i32) -> i32 {
    if a - b > i32::MAX {
        (a - b - 0x1_0000_0000) as i32
    } else if a - b < i32::MIN {
        (a - b + 0x1_0000_0000) as i32
    } else {
        (a - b) as i32
    }
}

/// Whether the difference of two register values wraps.
pub open spec fn sub_overflows(a: i32, b: i32) -> bool {
    a - b > i32::MAX || a - b < i32::MIN
}

/// The wraparound product of two register values.
pub open spec fn mul_wrapped(a: i32, b: i32) -> i32 {
    wrap_i32(a * b)
}

/// Whether the product of two register values wraps.
pub open spec fn mul_overflows(a: i32, b: i32) -> bool {
    a * b > i32::MAX || a * b < i32::MIN
}

/// Truncated (round-toward-zero) integer division, as the machine's divide
/// instruction computes it.
pub open spec fn trunc_div(x: int, d: int) -> int
    recommends
        d != 0,
{
    if x == 0 {
        0
    } else if x > 0 && d > 0 {
        x / d
    } else if x < 0 && d < 0 {
        (x * -1) / (d * -1)
    } else if x < 0 {
        ((x * -1) / d) * -1
    } else {
        (x / (d * -1)) * -1
    }
}

/// The remainder matching truncated division: it has the sign of the
/// dividend and magnitude below the divisor's.
pub open spec fn trunc_rem(x: int, d: int) -> int
    recommends
        d != 0,
{
    if x == 0 {
        0
    } else if x > 0 && d > 0 {
        x % d
    } else if x < 0 && d < 0 {
        ((x * -1) % (d * -1)) * -1
    } else if x < 0 {
        ((x * -1) % d) * -1
    } else {
        x % (d * -1)
    }
}

/// The quotient stored by the divide instruction: truncated division, except
/// that the one wrapping case stores the wrapped result.
pub open spec fn div_wrapped(a: i32, b: i32) -> i32
    recommends
        b != 0,
{
    if a == i32::MIN && b == -1 {
        i32::MIN
    } else {
        trunc_div(a as int, b as int) as i32
    }
}

/// Whether the quotient of two register values wraps: only dividing the
/// minimum value by minus one does.
pub open spec fn div_overflows(a: i32, b: i32) -> bool {
    a == i32::MIN && b == -1
}

/// The remainder stored by the modulo instruction: the truncated remainder,
/// which is zero whenever the divisor is minus one.
pub open spec fn rem_wrapped(a: i32, b: i32) -> i32
    recommends
        b != 0,
{
    trunc_rem(a as int, b as int) as i32
}

/// Truncated division of 32-bit values stays within the 32-bit range except
/// for the minimum value divided by minus one.
pub proof fn lemma_trunc_div_fits(a: i32, b: i32)
    requires
        b != 0,
        !(a == i32::MIN && b == -1),
    ensures
        i32::MIN <= trunc_div(a as int, b as int) <= i32::MAX,
{
    let x = a as int;
    let d = b as int;
    if x == 0 {
    } else if x > 0 && d > 0 {
        lemma_div_pos_is_pos(x, d);
        lemma_div_is_ordered_by_denominator(x, 1, d);
    } else if x < 0 && d < 0 {
        let p = x * -1;
        let q = d * -1;
        lemma_div_pos_is_pos(p, q);
        if q == 1 {
            assert(p <= i32::MAX);
        } else {
            lemma_div_is_ordered_by_denominator(p, 2, q);
            lemma_div_is_ordered(p, 0x8000_0000, 2);
        }
    } else if x < 0 {
        let p = x * -1;
        lemma_div_pos_is_pos(p, d);
        lemma_div_is_ordered_by_denominator(p, 1, d);
    } else {
        let q = d * -1;
        lemma_div_pos_is_pos(x, q);
        lemma_div_is_ordered_by_denominator(x, 1, q);
    }
}

/// The truncated remainder of 32-bit values always stays within the 32-bit
/// range: its magnitude is below the divisor's.
pub proof fn lemma_trunc_rem_fits(a: i32, b: i32)
    requires
        b != 0,
    ensures
        i32::MIN <= trunc_rem(a as int, b as int) <= i32::MAX,
{
    let x = a as int;
    let d = b as int;
    if x == 0 {
    } else if x > 0 && d > 0 {
        lemma_mod_division_less_than_divisor(x, d);
    } else if x < 0 && d < 0 {
        lemma_mod_division_less_than_divisor(x * -1, d * -1);
    } else if x < 0 {
        lemma_mod_division_less_than_divisor(x * -1, d);
    } else {
        lemma_mod_division_less_than_divisor(x, d * -1);
    }
}

/// The truncated remainder by minus one is zero, whatever the dividend.
pub proof fn lemma_trunc_rem_neg_one(a: i32)
    ensures
        trunc_rem(a as int, -1) == 0,
{
    let x = a as int;
    if x > 0 {
        lemma_fundamental_div_mod(x, 1);
        lemma_mod_division_less_than_divisor(x, 1);
    } else if x < 0 {
        lemma_fundamental_div_mod(x * -1, 1);
        lemma_mod_division_less_than_divisor(x * -1, 1);
    }
}

/// The flags after an arithmetic instruction: `overflow` says whether the
/// operation wrapped, `zero` and `negative` describe the stored result, and
/// `carry` is kept.
pub open spec fn arith_flags(old_flags: StatusFlags, result: i32, overflow: bool) -> StatusFlags {
    StatusFlags { zero: result == 0, carry: old_flags.carry, overflow, negative: result < 0 }
}

/// The flags after a logical or modulo instruction: `zero` and `negative`
/// describe the stored result; `overflow` and `carry` are kept.
pub open spec fn logic_flags(old_flags: StatusFlags, result: i32) -> StatusFlags {
    StatusFlags {
        zero: result == 0,
        carry: old_flags.carry,
        overflow: old_flags.overflow,
        negative: result < 0,
    }
}

/// The CPU state with one register replaced.
pub open spec fn with_reg(cpu: CpuView, reg: u8, value: i32) -> CpuView {
    CpuView { regs: cpu.regs.update(reg as int, value), flags: cpu.flags, pc: cpu.pc }
}

/// The CPU state with the flags replaced.
pub open spec fn with_flags(cpu: CpuView, flags: StatusFlags) -> CpuView {
    CpuView { regs: cpu.regs, flags, pc: cpu.pc }
}

/// The low 32 bits of the program counter, as the signed value that a call
/// pushes on the stack.
pub open spec fn pc_to_i32(pc: nat) -> i32 {
    i32_of_u32((pc % 0x1_0000_0000) as u32)
}

/// One step of the execution semantics: what executing `instr` in CPU state
/// `cpu`, with memory `mem` and a stack `stk` bounded by `cap`, does.  The
/// result is the new CPU state, memory and stack together with the
/// program-counter transition, or the error the instruction raises — in
/// which case nothing changes.
pub open spec fn cpu_step(
    cpu: CpuView,
    mem: Seq<u8>,
    stk: Seq<i32>,
    cap: nat,
    instr: Instruction,
) -> Result<(CpuView, Seq<u8>, Seq<i32>, PcTransition), VmError>
    recommends
        cpu.wf(),
        instr.wf(),
        stk.len() <= cap,
{
    match instr {
        Instruction::NOP => Ok((cpu, mem, stk, PcTransition::Advance)),
        Instruction::MOV { dest, value } => Ok(
            (with_reg(cpu, dest, value), mem, stk, PcTransition::Advance),
        ),
        Instruction::LD { dest, address } => match spec_read(mem, address as usize, 4) {
            Err(e) => Err(e),
            Ok(bytes) => Ok(
                (
                    with_reg(cpu, dest, i32_of_u32(u32_of_le(bytes))),
                    mem,
                    stk,
                    PcTransition::Advance,
                ),
            ),
        },
        Instruction::ST { src, address } => {
            match spec_write(mem, address as usize, u32_le_bytes(u32_of_i32(cpu.regs[src as int]))) {
                Err(e) => Err(e),
                Ok(mem2) => Ok((cpu, mem2, stk, PcTransition::Advance)),
            }
        },
        Instruction::ADD { dest, reg1, reg2 } => {
            let a = cpu.regs[reg1 as int];
            let b = cpu.regs[reg2 as int];
            let result = add_wrapped(a, b);
            Ok(
                (
                    with_flags(
                        with_reg(cpu, dest, result),
                        arith_flags(cpu.flags, result, add_overflows(a, b)),
                    ),
                    mem,
                    stk,
                    PcTransition::Advance,
                ),
            )
        },
        Instruction::SUB { dest, reg1, reg2 } => {
            let a = cpu.regs[reg1 as int];
            let b = cpu.regs[reg2 as int];
            let result = sub_wrapped(a, b);
            Ok(
                (
                    with_flags(
                        with_reg(cpu, dest, result),
                        arith_flags(cpu.flags, result, sub_overflows(a, b)),
                    ),
                    mem,
                    stk,
                    PcTransition::Advance,
                ),
            )
        },
        Instruction::MULT { dest, reg1, reg2 } => {
            let a = cpu.regs[reg1 as int];
            let b = cpu.regs[reg2 as int];
            let result = mul_wrapped(a, b);
            Ok(
                (
                    with_flags(
                        with_reg(cpu, dest, result),
                        arith_flags(cpu.flags, result, mul_overflows(a, b)),
                    ),
                    mem,
                    stk,
                    PcTransition::Advance,
                ),
            )
        },
        Instruction::DIV { dest, reg1, reg2 } => {
            let a = cpu.regs[reg1 as int];
            let b = cpu.regs[reg2 as int];
            if b == 0 {
                Err(VmError::DivisionByZero)
            } else {
                let result = div_wrapped(a, b);
                Ok(
                    (
                        with_flags(
                            with_reg(cpu, dest, result),
                            arith_flags(cpu.flags, result, div_overflows(a, b)),
                        ),
                        mem,
                        stk,
                        PcTransition::Advance,
                    ),
                )
            }
        },
        Instruction::MOD { dest, reg1, reg2 } => {
            let a = cpu.regs[reg1 as int];
            let b = cpu.regs[reg2 as int];
            if b == 0 {
                Err(VmError::DivisionByZero)
            } else {
                let result = rem_wrapped(a, b);
                Ok(
                    (
                        with_flags(with_reg(cpu, dest, result), logic_flags(cpu.flags, result)),
                        mem,
                        stk,
                        PcTransition::Advance,
                    ),
                )
            }
        },
        Instruction::AND { dest, reg1, reg2 } => {
            let result = cpu.regs[reg1 as int] & cpu.regs[reg2 as int];
            Ok(
                (
                    with_flags(with_reg(cpu, dest, result), logic_flags(cpu.flags, result)),
                    mem,
                    stk,
                    PcTransition::Advance,
                ),
            )
        },
        Instruction::OR { dest, reg1, reg2 } => {
            let result = cpu.regs[reg1 as int] | cpu.regs[reg2 as int];
            Ok(
                (
                    with_flags(with_reg(cpu, dest, result), logic_flags(cpu.flags, result)),
                    mem,
                    stk,
                    PcTransition::Advance,
                ),
            )
        },
        Instruction::XOR { dest, reg1, reg2 } => {
            let result = cpu.regs[reg1 as int] ^ cpu.regs[reg2 as int];
            Ok(
                (
                    with_flags(with_reg(cpu, dest, result), logic_flags(cpu.flags, result)),
                    mem,
                    stk,
                    PcTransition::Advance,
                ),
            )
        },
        Instruction::NOT { dest, reg } => {
            let result = !cpu.regs[reg as int];
            Ok(
                (
                    with_flags(with_reg(cpu, dest, result), logic_flags(cpu.flags, result)),
                    mem,
                    stk,
                    PcTransition::Advance,
                ),
            )
        },
        Instruction::CMP { reg1, reg2 } => {
            let equal = cpu.regs[reg1 as int] == cpu.regs[reg2 as int];
            let flags = StatusFlags {
                zero: equal,
                carry: cpu.flags.carry,
                overflow: cpu.flags.overflow,
                negative: cpu.flags.negative,
            };
            Ok((with_flags(cpu, flags), mem, stk, PcTransition::Advance))
        },
        Instruction::INC { reg } => {
            let a = cpu.regs[reg as int];
            let result = add_wrapped(a, 1);
            Ok(
                (
                    with_flags(
                        with_reg(cpu, reg, result),
                        arith_flags(cpu.flags, result, add_overflows(a, 1)),
                    ),
                    mem,
                    stk,
                    PcTransition::Advance,
                ),
            )
        },
        Instruction::DEC { reg } => {
            let a = cpu.regs[reg as int];
            let result = sub_wrapped(a, 1);
            Ok(
                (
                    with_flags(
                        with_reg(cpu, reg, result),
                        arith_flags(cpu.flags, result, sub_overflows(a, 1)),
                    ),
                    mem,
                    stk,
                    PcTransition::Advance,
                ),
            )
        },
        Instruction::PUSHREG { reg } => {
            if stk.len() >= cap {
                Err(VmError::StackOverflow)
            } else {
                Ok((cpu, mem, stk.push(cpu.regs[reg as int]), PcTransition::Advance))
            }
        },
        Instruction::POPREG { reg } => {
            if stk.len() == 0 {
                Err(VmError::StackUnderflow)
            } else {
                Ok((with_reg(cpu, reg, stk.last()), mem, stk.drop_last(), PcTransition::Advance))
            }
        },
        Instruction::JMP { address } => Ok((cpu, mem, stk, PcTransition::JumpTo(address))),
        Instruction::JMPN { address } => Ok(
            (
                cpu,
                mem,
                stk,
                if cpu.flags.negative {
                    PcTransition::JumpTo(address)
                } else {
                    PcTransition::Advance
                },
            ),
        ),
        Instruction::JMPP { address } => Ok(
            (
                cpu,
                mem,
                stk,
                if !cpu.flags.negative {
                    PcTransition::JumpTo(address)
                } else {
                    PcTransition::Advance
                },
            ),
        ),
        Instruction::JMPZ { address } => Ok(
            (
                cpu,
                mem,
                stk,
                if cpu.flags.zero {
                    PcTransition::JumpTo(address)
                } else {
                    PcTransition::Advance
                },
            ),
        ),
        Instruction::CALL { address } => {
            if stk.len() >= cap {
                Err(VmError::StackOverflow)
            } else {
                Ok((cpu, mem, stk.push(pc_to_i32(cpu.pc)), PcTransition::JumpTo(address)))
            }
        },
        Instruction::RET => {
            if stk.len() == 0 {
                Err(VmError::StackUnderflow)
            } else {
                Ok((cpu, mem, stk.drop_last(), PcTransition::JumpTo(u32_of_i32(stk.last()))))
            }
        },
        Instruction::CLF => {
            let flags = StatusFlags {
                zero: false,
                carry: cpu.flags.carry,
                overflow: false,
                negative: false,
            };
            Ok((with_flags(cpu, flags), mem, stk, PcTransition::Advance))
        },
        Instruction::HLT => Ok((cpu, mem, stk, PcTransition::Halt)),
    }
}

/// The CPU: a fixed register file, the status flags and a program counter.
pub struct CPU {
    registers: Vec<i32>,
    status_flags: StatusFlags,
    pc: usize,
}

impl View for CPU {
    type V = CpuView;

    /// The register values, the flags and the program counter.
    closed spec fn view(&self) -> CpuView {
        CpuView { regs: self.registers@, flags: self.status_flags, pc: self.pc as nat }
    }
}

impl CPU {
    /// The register file has exactly the configured number of registers.
    pub open spec fn wf(&self) -> bool {
        self@.wf()
    }

    /// Creates a CPU with zeroed registers, cleared flags and the program
    /// counter at zero.
    pub fn new() -> (cpu: CPU)
        ensures
            cpu@ == init_cpu_view(),
            cpu.wf(),
    {
        CPU {
            registers: crate::word::filled(0i32, REGISTERS_COUNT as usize),
            status_flags: StatusFlags { zero: false, carry: false, overflow: false, negative: false },
            pc: 0,
        }
    }

    /// Resets the CPU: registers and flags cleared, program counter zero.
    pub fn init(&mut self)
        ensures
            final(self)@ == init_cpu_view(),
            final(self).wf(),
    {
        self.registers = crate::word::filled(0i32, REGISTERS_COUNT as usize);
        self.status_flags = StatusFlags { zero: false, carry: false, overflow: false, negative: false };
        self.pc = 0;
    }

    /// The current program counter.
    pub fn pc(&self) -> (r: usize)
        ensures
            r == self@.pc,
    {
        self.pc
    }

    /// The current status flags.
    pub fn flags(&self) -> (f: StatusFlags)
        ensures
            f == self@.flags,
    {
        self.status_flags
    }

    /// The value of register `index`; fails with `InvalidRegister` exactly
    /// when `index` is at or above the register count.  This re-validates
    /// the index independently of the decoder.
    pub fn get_register(&self, index: u8) -> (r: Result<i32, VmError>)
        requires
            self.wf(),
        ensures
            r == (if index < REGISTERS_COUNT {
                Ok::<i32, VmError>(self@.regs[index as int])
            } else {
                Err::<i32, VmError>(VmError::InvalidRegister { register: index })
            }),
    {
        if index >= REGISTERS_COUNT {
            return Err(VmError::InvalidRegister { register: index });
        }
        Ok(self.registers[index as usize])
    }

    /// Advances the program counter by `amount` bytes.
    pub fn advance_pc(&mut self, amount: usize)
        requires
            old(self)@.pc + amount <= usize::MAX,
        ensures
            final(self)@ == (CpuView {
                regs: old(self)@.regs,
                flags: old(self)@.flags,
                pc: (old(self)@.pc + amount) as nat,
            }),
    {
        self.pc = self.pc + amount;
    }

    /// Sets the program counter to `address`.
    pub fn jump_to(&mut self, address: u32)
        ensures
            final(self)@ == (CpuView {
                regs: old(self)@.regs,
                flags: old(self)@.flags,
                pc: address as nat,
            }),
    {
        self.pc = address as usize;
    }

    /// Executes one decoded instruction against `memory` and `stack`.
    ///
    /// Registers, flags, memory and stack change exactly as [`cpu_step`]
    /// says, and the returned transition is the one it prescribes; the
    /// program counter is not modified — the caller applies the transition.
    /// On an error nothing changes.
    pub fn execute_instruction(
        &mut self,
        instruction: Instruction,
        memory: &mut Memory,
        stack: &mut Stack<i32>,
    ) -> (r: Result<PcTransition, VmError>)
        requires
            old(self).wf(),
            instruction.wf(),
            old(stack).wf(),
        ensures
            final(self).wf(),
            final(stack).wf(),
            final(stack).cap() == old(stack).cap(),
            final(memory)@.len() == old(memory)@.len(),
            match cpu_step(old(self)@, old(memory)@, old(stack)@, old(stack).cap(), instruction) {
                Ok(step) => r == Ok::<PcTransition, VmError>(step.3) && final(self)@ == step.0
                    && final(memory)@ == step.1 && final(stack)@ == step.2,
                Err(e) => r == Err::<PcTransition, VmError>(e) && final(self)@ == old(self)@
                    && final(memory)@ == old(memory)@ && final(stack)@ == old(stack)@,
            },
    {
        match instruction {
            Instruction::NOP => Ok(PcTransition::Advance),
            Instruction::MOV { dest, value } => {
                self.registers[dest as usize] = value;
                Ok(PcTransition::Advance)
            },
            Instruction::LD { dest, address } => {
                let value = memory.read::<i32>(address as usize)?;
                self.registers[dest as usize] = value;
                Ok(PcTransition::Advance)
            },
            Instruction::ST { src, address } => {
                memory.write::<i32>(address as usize, self.registers[src as usize])?;
                Ok(PcTransition::Advance)
            },
            Instruction::ADD { dest, reg1, reg2 } => {
                let a = self.registers[reg1 as usize];
                let b = self.registers[reg2 as usize];
                let result = a.wrapping_add(b);
                let overflow = a.checked_add(b).is_none();
                self.registers[dest as usize] = result;
                self.status_flags = StatusFlags {
                    zero: result == 0,
                    carry: self.status_flags.carry,
                    overflow,
                    negative: result < 0,
                };
                Ok(PcTransition::Advance)
            },
            Instruction::SUB { dest, reg1, reg2 } => {
                let a = self.registers[reg1 as usize];
                let b = self.registers[reg2 as usize];
                let result = a.wrapping_sub(b);
                let overflow = a.checked_sub(b).is_none();
                self.registers[dest as usize] = result;
                self.status_flags = StatusFlags {
                    zero: result == 0,
                    carry: self.status_flags.carry,
                    overflow,
                    negative: result < 0,
                };
                Ok(PcTransition::Advance)
            },
            Instruction::MULT { dest, reg1, reg2 } => {
                let a = self.registers[reg1 as usize];
                let b = self.registers[reg2 as usize];
                let result = a.wrapping_mul(b);
                let overflow = a.checked_mul(b).is_none();
                self.registers[dest as usize] = result;
                self.status_flags = StatusFlags {
                    zero: result == 0,
                    carry: self.status_flags.carry,
                    overflow,
                    negative: result < 0,
                };
                Ok(PcTransition::Advance)
            },
            Instruction::DIV { dest, reg1, reg2 } => {
                let a = self.registers[reg1 as usize];
                let b = self.registers[reg2 as usize];
                if b == 0 {
                    return Err(VmError::DivisionByZero);
                }
                let (result, overflow) = if a == i32::MIN && b == -1 {
                    (i32::MIN, true)
                } else {
                    proof {
                        lemma_trunc_div_fits(a, b);
                    }
                    let q = match a.checked_div(b) {
                        Some(q) => q,
                        None => {
                            proof {
                                assert(false);
                            }
                            0
                        },
                    };
                    (q, false)
                };
                self.registers[dest as usize] = result;
                self.status_flags = StatusFlags {
                    zero: result == 0,
                    carry: self.status_flags.carry,
                    overflow,
                    negative: result < 0,
                };
                Ok(PcTransition::Advance)
            },
            Instruction::MOD { dest, reg1, reg2 } => {
                let a = self.registers[reg1 as usize];
                let b = self.registers[reg2 as usize];
                if b == 0 {
                    return Err(VmError::DivisionByZero);
                }
                let result = if b == -1 {
                    proof {
                        lemma_trunc_rem_neg_one(a);
                    }
                    0
                } else {
                    proof {
                        lemma_trunc_rem_fits(a, b);
                    }
                    match a.checked_rem(b) {
                        Some(r) => r,
                        None => {
                            proof {
                                assert(false);
                            }
                            0
                        },
                    }
                };
                self.registers[dest as usize] = result;
                self.status_flags = StatusFlags {
                    zero: result == 0,
                    carry: self.status_flags.carry,
                    overflow: self.status_flags.overflow,
                    negative: result < 0,
                };
                Ok(PcTransition::Advance)
            },
            Instruction::AND { dest, reg1, reg2 } => {
                let result = self.registers[reg1 as usize] & self.registers[reg2 as usize];
                self.registers[dest as usize] = result;
                self.status_flags = StatusFlags {
                    zero: result == 0,
                    carry: self.status_flags.carry,
                    overflow: self.status_flags.overflow,
                    negative: result < 0,
                };
                Ok(PcTransition::Advance)
            },
            Instruction::OR { dest, reg1, reg2 } => {
                let result = self.registers[reg1 as usize] | self.registers[reg2 as usize];
                self.registers[dest as usize] = result;
                self.status_flags = StatusFlags {
                    zero: result == 0,
                    carry: self.status_flags.carry,
                    overflow: self.status_flags.overflow,
                    negative: result < 0,
                };
                Ok(PcTransition::Advance)
            },
            Instruction::XOR { dest, reg1, reg2 } => {
                let result = self.registers[reg1 as usize] ^ self.registers[reg2 as usize];
                self.registers[dest as usize] = result;
                self.status_flags = StatusFlags {
                    zero: result == 0,
                    carry: self.status_flags.carry,
                    overflow: self.status_flags.overflow,
                    negative: result < 0,
                };
                Ok(PcTransition::Advance)
            },
            Instruction::NOT { dest, reg } => {
                let result = !self.registers[reg as usize];
                self.registers[dest as usize] = result;
                self.status_flags = StatusFlags {
                    zero: result == 0,
                    carry: self.status_flags.carry,
                    overflow: self.status_flags.overflow,
                    negative: result < 0,
                };
                Ok(PcTransition::Advance)
            },
            Instruction::CMP { reg1, reg2 } => {
                let equal = self.registers[reg1 as usize] == self.registers[reg2 as usize];
                self.status_flags = StatusFlags {
                    zero: equal,
                    carry: self.status_flags.carry,
                    overflow: self.status_flags.overflow,
                    negative: self.status_flags.negative,
                };
                Ok(PcTransition::Advance)
            },
            Instruction::INC { reg } => {
                let a = self.registers[reg as usize];
                let result = a.wrapping_add(1);
                let overflow = a.checked_add(1).is_none();
                self.registers[reg as usize] = result;
                self.status_flags = StatusFlags {
                    zero: result == 0,
                    carry: self.status_flags.carry,
                    overflow,
                    negative: result < 0,
                };
                Ok(PcTransition::Advance)
            },
            Instruction::DEC { reg } => {
                let a = self.registers[reg as usize];
                let result = a.wrapping_sub(1);
                let overflow = a.checked_sub(1).is_none();
                self.registers[reg as usize] = result;
                self.status_flags = StatusFlags {
                    zero: result == 0,
                    carry: self.status_flags.carry,
                    overflow,
                    negative: result < 0,
                };
                Ok(PcTransition::Advance)
            },
            Instruction::PUSHREG { reg } => {
                stack.push(self.registers[reg as usize])?;
                Ok(PcTransition::Advance)
            },
            Instruction::POPREG { reg } => {
                let value = stack.pop()?;
                self.registers[reg as usize] = value;
                Ok(PcTransition::Advance)
            },
            Instruction::JMP { address } => Ok(PcTransition::JumpTo(address)),
            Instruction::JMPN { address } => {
                if self.status_flags.negative {
                    Ok(PcTransition::JumpTo(address))
                } else {
                    Ok(PcTransition::Advance)
                }
            },
            Instruction::JMPP { address } => {
                if !self.status_flags.negative {
                    Ok(PcTransition::JumpTo(address))
                } else {
                    Ok(PcTransition::Advance)
                }
            },
            Instruction::JMPZ { address } => {
                if self.status_flags.zero {
                    Ok(PcTransition::JumpTo(address))
                } else {
                    Ok(PcTransition::Advance)
                }
            },
            Instruction::CALL { address } => {
                let return_value = bits_to_i32(((self.pc as u64) % 0x1_0000_0000) as u32);
                stack.push(return_value)?;
                Ok(PcTransition::JumpTo(address))
            },
            Instruction::RET => {
                let value = stack.pop()?;
                Ok(PcTransition::JumpTo(i32_to_bits(value)))
            },
            Instruction::CLF => {
                self.status_flags.clear();
                Ok(PcTransition::Advance)
            },
            Instruction::HLT => Ok(PcTransition::Halt),
        }
    }
}

} // verus!
