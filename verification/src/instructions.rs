//! The instruction set of the machine.
//!
//! A closed set of one-byte opcodes, each with a fixed operand shape and a
//! fixed encoded length.  An encoded instruction is the opcode byte followed
//! by tightly packed little-endian operand bytes; the mapping between an
//! opcode and its byte is bijective, and encoding is specified here so that
//! decoding can be proved to invert it.

use crate::error::VmError;
use crate::hardware_config::REGISTERS_COUNT;
use crate::word::{i32_to_bits, u32_le_bytes, u32_of_i32, u32_to_le};
use vstd::prelude::*;

verus! {

/// One-byte discriminant identifying an instruction kind.
#[derive(Debug, Copy, Clone, PartialEq, Eq, Structural)]
pub enum OpCode {
    NOP,
    MOV,
    LD,
    ST,
    AND,
    OR,
    XOR,
    NOT,
    CMP,
    ADD,
    SUB,
    MULT,
    DIV,
    MOD,
    INC,
    DEC,
    PUSHREG,
    POPREG,
    JMP,
    JMPN,
    JMPP,
    JMPZ,
    CALL,
    RET,
    CLF,
    HLT,
}

/// The opcode encoded by a byte, if the byte is a recognised discriminant.
pub open spec fn opcode_of_byte(b: u8) -> Option<OpCode> {
    match b {
        0x00 => Some(OpCode::NOP),
        0x01 => Some(OpCode::MOV),
        0x02 => Some(OpCode::LD),
        0x03 => Some(OpCode::ST),
        0x04 => Some(OpCode::AND),
        0x05 => Some(OpCode::OR),
        0x06 => Some(OpCode::XOR),
        0x07 => Some(OpCode::NOT),
        0x08 => Some(OpCode::CMP),
        0x09 => Some(OpCode::ADD),
        0x0A => Some(OpCode::SUB),
        0x0B => Some(OpCode::MULT),
        0x0C => Some(OpCode::DIV),
        0x0D => Some(OpCode::MOD),
        0x0E => Some(OpCode::INC),
        0x0F => Some(OpCode::DEC),
        0x10 => Some(OpCode::PUSHREG),
        0x11 => Some(OpCode::POPREG),
        0x12 => Some(OpCode::JMP),
        0x13 => Some(OpCode::JMPN),
        0x14 => Some(OpCode::JMPP),
        0x15 => Some(OpCode::JMPZ),
        0x16 => Some(OpCode::CALL),
        0x17 => Some(OpCode::RET),
        0x18 => Some(OpCode::CLF),
        0xFF => Some(OpCode::HLT),
        _ => None,
    }
}

impl OpCode {
    /// The byte that encodes this opcode.
    pub open spec fn byte(self) -> u8 {
        match self {
            OpCode::NOP => 0x00,
            OpCode::MOV => 0x01,
            OpCode::LD => 0x02,
            OpCode::ST => 0x03,
            OpCode::AND => 0x04,
            OpCode::OR => 0x05,
            OpCode::XOR => 0x06,
            OpCode::NOT => 0x07,
            OpCode::CMP => 0x08,
            OpCode::ADD => 0x09,
            OpCode::SUB => 0x0A,
            OpCode::MULT => 0x0B,
            OpCode::DIV => 0x0C,
            OpCode::MOD => 0x0D,
            OpCode::INC => 0x0E,
            OpCode::DEC => 0x0F,
            OpCode::PUSHREG => 0x10,
            OpCode::POPREG => 0x11,
            OpCode::JMP => 0x12,
            OpCode::JMPN => 0x13,
            OpCode::JMPP => 0x14,
            OpCode::JMPZ => 0x15,
            OpCode::CALL => 0x16,
            OpCode::RET => 0x17,
            OpCode::CLF => 0x18,
            OpCode::HLT => 0xFF,
        }
    }

    /// The total encoded length of an instruction with this opcode: the
    /// opcode byte plus its tightly packed operand bytes.
    pub open spec fn size_spec(self) -> nat {
        match self {
            OpCode::NOP => 1,
            OpCode::MOV => 6,
            OpCode::LD => 6,
            OpCode::ST => 6,
            OpCode::AND => 4,
            OpCode::OR => 4,
            OpCode::XOR => 4,
            OpCode::NOT => 3,
            OpCode::CMP => 3,
            OpCode::ADD => 4,
            OpCode::SUB => 4,
            OpCode::MULT => 4,
            OpCode::DIV => 4,
            OpCode::MOD => 4,
            OpCode::INC => 2,
            OpCode::DEC => 2,
            OpCode::PUSHREG => 2,
            OpCode::POPREG => 2,
            OpCode::JMP => 5,
            OpCode::JMPN => 5,
            OpCode::JMPP => 5,
            OpCode::JMPZ => 5,
            OpCode::CALL => 5,
            OpCode::RET => 1,
            OpCode::CLF => 1,
            OpCode::HLT => 1,
        }
    }

    /// Decodes a byte into an opcode, rejecting unrecognised discriminants.
    pub fn from_byte(value: u8) -> (r: Result<OpCode, VmError>)
        ensures
            r == (match opcode_of_byte(value) {
                Some(op) => Ok::<OpCode, VmError>(op),
                None => Err::<OpCode, VmError>(VmError::InvalidOpcode { opcode: value }),
            }),
    {
        match value {
            0x00 => Ok(OpCode::NOP),
            0x01 => Ok(OpCode::MOV),
            0x02 => Ok(OpCode::LD),
            0x03 => Ok(OpCode::ST),
            0x04 => Ok(OpCode::AND),
            0x05 => Ok(OpCode::OR),
            0x06 => Ok(OpCode::XOR),
            0x07 => Ok(OpCode::NOT),
            0x08 => Ok(OpCode::CMP),
            0x09 => Ok(OpCode::ADD),
            0x0A => Ok(OpCode::SUB),
            0x0B => Ok(OpCode::MULT),
            0x0C => Ok(OpCode::DIV),
            0x0D => Ok(OpCode::MOD),
            0x0E => Ok(OpCode::INC),
            0x0F => Ok(OpCode::DEC),
            0x10 => Ok(OpCode::PUSHREG),
            0x11 => Ok(OpCode::POPREG),
            0x12 => Ok(OpCode::JMP),
            0x13 => Ok(OpCode::JMPN),
            0x14 => Ok(OpCode::JMPP),
            0x15 => Ok(OpCode::JMPZ),
            0x16 => Ok(OpCode::CALL),
            0x17 => Ok(OpCode::RET),
            0x18 => Ok(OpCode::CLF),
            0xFF => Ok(OpCode::HLT),
            _ => Err(VmError::InvalidOpcode { opcode: value }),
        }
    }

    /// The byte that encodes this opcode.
    pub fn to_byte(&self) -> (b: u8)
        ensures
            b == self.byte(),
    {
        match self {
            OpCode::NOP => 0x00,
            OpCode::MOV => 0x01,
            OpCode::LD => 0x02,
            OpCode::ST => 0x03,
            OpCode::AND => 0x04,
            OpCode::OR => 0x05,
            OpCode::XOR => 0x06,
            OpCode::NOT => 0x07,
            OpCode::CMP => 0x08,
            OpCode::ADD => 0x09,
            OpCode::SUB => 0x0A,
            OpCode::MULT => 0x0B,
            OpCode::DIV => 0x0C,
            OpCode::MOD => 0x0D,
            OpCode::INC => 0x0E,
            OpCode::DEC => 0x0F,
            OpCode::PUSHREG => 0x10,
            OpCode::POPREG => 0x11,
            OpCode::JMP => 0x12,
            OpCode::JMPN => 0x13,
            OpCode::JMPP => 0x14,
            OpCode::JMPZ => 0x15,
            OpCode::CALL => 0x16,
            OpCode::RET => 0x17,
            OpCode::CLF => 0x18,
            OpCode::HLT => 0xFF,
        }
    }

    /// The total encoded length of an instruction with this opcode.
    pub fn size(&self) -> (n: usize)
        ensures
            n == self.size_spec(),
    {
        match self {
            OpCode::NOP => 1,
            OpCode::MOV => 6,
            OpCode::LD => 6,
            OpCode::ST => 6,
            OpCode::AND => 4,
            OpCode::OR => 4,
            OpCode::XOR => 4,
            OpCode::NOT => 3,
            OpCode::CMP => 3,
            OpCode::ADD => 4,
            OpCode::SUB => 4,
            OpCode::MULT => 4,
            OpCode::DIV => 4,
            OpCode::MOD => 4,
            OpCode::INC => 2,
            OpCode::DEC => 2,
            OpCode::PUSHREG => 2,
            OpCode::POPREG => 2,
            OpCode::JMP => 5,
            OpCode::JMPN => 5,
            OpCode::JMPP => 5,
            OpCode::JMPZ => 5,
            OpCode::CALL => 5,
            OpCode::RET => 1,
            OpCode::CLF => 1,
            OpCode::HLT => 1,
        }
    }
}

/// The byte of every opcode decodes back to that opcode, so the mapping
/// between opcodes and their discriminant bytes is injective.
pub proof fn lemma_opcode_byte_round_trip(op: OpCode)
    ensures
        opcode_of_byte(op.byte()) == Some(op),
{
}

/// Every recognised discriminant byte is the byte of the opcode it decodes
/// to, so the mapping between opcodes and their bytes is a bijection on the
/// recognised bytes.
pub proof fn lemma_opcode_of_byte_inverse(b: u8)
    ensures
        match opcode_of_byte(b) {
            Some(op) => op.byte() == b,
            None => true,
        },
{
}

/// A decoded instruction: one case per opcode, carrying typed operands.
///
/// Register operands are `u8` indices into the register file, immediate
/// values are signed 32-bit words, and addresses are unsigned 32-bit words.
#[derive(Debug, Copy, Clone, PartialEq, Eq, Structural)]
pub enum Instruction {
    /// No operation.
    NOP,
    /// Jump unconditionally to `address`.
    JMP { address: u32 },
    /// Jump to `address` if the negative flag is set.
    JMPN { address: u32 },
    /// Jump to `address` if the negative flag is not set.
    JMPP { address: u32 },
    /// Jump to `address` if the zero flag is set.
    JMPZ { address: u32 },
    /// Push the current program counter on the stack, then jump to `address`.
    CALL { address: u32 },
    /// Pop an address off the stack and jump to it.
    RET,
    /// Halt execution: a non-faulting termination signal.
    HLT,
    /// Move the immediate `value` into register `dest`.
    MOV { dest: u8, value: i32 },
    /// Load the 32-bit word at memory `address` into register `dest`.
    LD { dest: u8, address: u32 },
    /// Store register `src` as a 32-bit word at memory `address`.
    ST { src: u8, address: u32 },
    /// Push the value of register `reg` onto the stack.
    PUSHREG { reg: u8 },
    /// Pop the top of the stack into register `reg`.
    POPREG { reg: u8 },
    /// `dest = reg1 + reg2` with wraparound; sets the arithmetic flags.
    ADD { dest: u8, reg1: u8, reg2: u8 },
    /// `dest = reg1 - reg2` with wraparound; sets the arithmetic flags.
    SUB { dest: u8, reg1: u8, reg2: u8 },
    /// `dest = reg1 * reg2` with wraparound; sets the arithmetic flags.
    MULT { dest: u8, reg1: u8, reg2: u8 },
    /// `dest = reg1 / reg2` with wraparound; sets the arithmetic flags.
    DIV { dest: u8, reg1: u8, reg2: u8 },
    /// `dest = reg1 % reg2`; sets the zero and negative flags only.
    MOD { dest: u8, reg1: u8, reg2: u8 },
    /// Increment register `reg` by one with wraparound.
    INC { reg: u8 },
    /// Decrement register `reg` by one with wraparound.
    DEC { reg: u8 },
    /// `dest = reg1 & reg2`; sets the zero and negative flags only.
    AND { dest: u8, reg1: u8, reg2: u8 },
    /// `dest = reg1 | reg2`; sets the zero and negative flags only.
    OR { dest: u8, reg1: u8, reg2: u8 },
    /// `dest = reg1 ^ reg2`; sets the zero and negative flags only.
    XOR { dest: u8, reg1: u8, reg2: u8 },
    /// `dest = !reg`; sets the zero and negative flags only.
    NOT { dest: u8, reg: u8 },
    /// Set the zero flag iff `reg1` equals `reg2`; no other flag changes.
    CMP { reg1: u8, reg2: u8 },
    /// Clear the zero, overflow and negative flags.
    CLF,
}

impl Instruction {
    /// The opcode of this instruction.
    pub open spec fn opcode(self) -> OpCode {
        match self {
            Instruction::NOP => OpCode::NOP,
            Instruction::MOV { .. } => OpCode::MOV,
            Instruction::LD { .. } => OpCode::LD,
            Instruction::ST { .. } => OpCode::ST,
            Instruction::AND { .. } => OpCode::AND,
            Instruction::OR { .. } => OpCode::OR,
            Instruction::XOR { .. } => OpCode::XOR,
            Instruction::NOT { .. } => OpCode::NOT,
            Instruction::CMP { .. } => OpCode::CMP,
            Instruction::ADD { .. } => OpCode::ADD,
            Instruction::SUB { .. } => OpCode::SUB,
            Instruction::MULT { .. } => OpCode::MULT,
            Instruction::DIV { .. } => OpCode::DIV,
            Instruction::MOD { .. } => OpCode::MOD,
            Instruction::INC { .. } => OpCode::INC,
            Instruction::DEC { .. } => OpCode::DEC,
            Instruction::PUSHREG { .. } => OpCode::PUSHREG,
            Instruction::POPREG { .. } => OpCode::POPREG,
            Instruction::JMP { .. } => OpCode::JMP,
            Instruction::JMPN { .. } => OpCode::JMPN,
            Instruction::JMPP { .. } => OpCode::JMPP,
            Instruction::JMPZ { .. } => OpCode::JMPZ,
            Instruction::CALL { .. } => OpCode::CALL,
            Instruction::RET => OpCode::RET,
            Instruction::CLF => OpCode::CLF,
            Instruction::HLT => OpCode::HLT,
        }
    }

    /// The exact encoded length of this instruction, which is the encoded
    /// length of its opcode.
    pub open spec fn size_spec(self) -> nat {
        self.opcode().size_spec()
    }

    /// Every register operand of this instruction is a valid index into the
    /// register file.  The decoder only produces instructions for which this
    /// holds, and execution relies on it.
    pub open spec fn wf(self) -> bool {
        match self {
            Instruction::NOP => true,
            Instruction::MOV { dest, .. } => dest < REGISTERS_COUNT,
            Instruction::LD { dest, .. } => dest < REGISTERS_COUNT,
            Instruction::ST { src, .. } => src < REGISTERS_COUNT,
            Instruction::AND { dest, reg1, reg2 } => dest < REGISTERS_COUNT && reg1
                < REGISTERS_COUNT && reg2 < REGISTERS_COUNT,
            Instruction::OR { dest, reg1, reg2 } => dest < REGISTERS_COUNT && reg1
                < REGISTERS_COUNT && reg2 < REGISTERS_COUNT,
            Instruction::XOR { dest, reg1, reg2 } => dest < REGISTERS_COUNT && reg1
                < REGISTERS_COUNT && reg2 < REGISTERS_COUNT,
            Instruction::NOT { dest, reg } => dest < REGISTERS_COUNT && reg < REGISTERS_COUNT,
            Instruction::CMP { reg1, reg2 } => reg1 < REGISTERS_COUNT && reg2 < REGISTERS_COUNT,
            Instruction::ADD { dest, reg1, reg2 } => dest < REGISTERS_COUNT && reg1
                < REGISTERS_COUNT && reg2 < REGISTERS_COUNT,
            Instruction::SUB { dest, reg1, reg2 } => dest < REGISTERS_COUNT && reg1
                < REGISTERS_COUNT && reg2 < REGISTERS_COUNT,
            Instruction::MULT { dest, reg1, reg2 } => dest < REGISTERS_COUNT && reg1
                < REGISTERS_COUNT && reg2 < REGISTERS_COUNT,
            Instruction::DIV { dest, reg1, reg2 } => dest < REGISTERS_COUNT && reg1
                < REGISTERS_COUNT && reg2 < REGISTERS_COUNT,
            Instruction::MOD { dest, reg1, reg2 } => dest < REGISTERS_COUNT && reg1
                < REGISTERS_COUNT && reg2 < REGISTERS_COUNT,
            Instruction::INC { reg } => reg < REGISTERS_COUNT,
            Instruction::DEC { reg } => reg < REGISTERS_COUNT,
            Instruction::PUSHREG { reg } => reg < REGISTERS_COUNT,
            Instruction::POPREG { reg } => reg < REGISTERS_COUNT,
            Instruction::JMP { .. } => true,
            Instruction::JMPN { .. } => true,
            Instruction::JMPP { .. } => true,
            Instruction::JMPZ { .. } => true,
            Instruction::CALL { .. } => true,
            Instruction::RET => true,
            Instruction::CLF => true,
            Instruction::HLT => true,
        }
    }

    /// The encoded bytes of this instruction: the opcode byte followed by its
    /// operands, registers as single bytes and words in little-endian order.
    pub open spec fn encode_spec(self) -> Seq<u8> {
        match self {
            Instruction::NOP => seq![0x00u8],
            Instruction::MOV { dest, value } => seq![0x01u8, dest] + u32_le_bytes(
                u32_of_i32(value),
            ),
            Instruction::LD { dest, address } => seq![0x02u8, dest] + u32_le_bytes(address),
            Instruction::ST { src, address } => seq![0x03u8, src] + u32_le_bytes(address),
            Instruction::AND { dest, reg1, reg2 } => seq![0x04u8, dest, reg1, reg2],
            Instruction::OR { dest, reg1, reg2 } => seq![0x05u8, dest, reg1, reg2],
            Instruction::XOR { dest, reg1, reg2 } => seq![0x06u8, dest, reg1, reg2],
            Instruction::NOT { dest, reg } => seq![0x07u8, dest, reg],
            Instruction::CMP { reg1, reg2 } => seq![0x08u8, reg1, reg2],
            Instruction::ADD { dest, reg1, reg2 } => seq![0x09u8, dest, reg1, reg2],
            Instruction::SUB { dest, reg1, reg2 } => seq![0x0Au8, dest, reg1, reg2],
            Instruction::MULT { dest, reg1, reg2 } => seq![0x0Bu8, dest, reg1, reg2],
            Instruction::DIV { dest, reg1, reg2 } => seq![0x0Cu8, dest, reg1, reg2],
            Instruction::MOD { dest, reg1, reg2 } => seq![0x0Du8, dest, reg1, reg2],
            Instruction::INC { reg } => seq![0x0Eu8, reg],
            Instruction::DEC { reg } => seq![0x0Fu8, reg],
            Instruction::PUSHREG { reg } => seq![0x10u8, reg],
            Instruction::POPREG { reg } => seq![0x11u8, reg],
            Instruction::JMP { address } => seq![0x12u8] + u32_le_bytes(address),
            Instruction::JMPN { address } => seq![0x13u8] + u32_le_bytes(address),
            Instruction::JMPP { address } => seq![0x14u8] + u32_le_bytes(address),
            Instruction::JMPZ { address } => seq![0x15u8] + u32_le_bytes(address),
            Instruction::CALL { address } => seq![0x16u8] + u32_le_bytes(address),
            Instruction::RET => seq![0x17u8],
            Instruction::CLF => seq![0x18u8],
            Instruction::HLT => seq![0xFFu8],
        }
    }

    /// The exact encoded length of this instruction.
    pub fn size(&self) -> (n: usize)
        ensures
            n == self.size_spec(),
    {
        match self {
            Instruction::NOP => 1,
            Instruction::MOV { .. } => 6,
            Instruction::LD { .. } => 6,
            Instruction::ST { .. } => 6,
            Instruction::AND { .. } => 4,
            Instruction::OR { .. } => 4,
            Instruction::XOR { .. } => 4,
            Instruction::NOT { .. } => 3,
            Instruction::CMP { .. } => 3,
            Instruction::ADD { .. } => 4,
            Instruction::SUB { .. } => 4,
            Instruction::MULT { .. } => 4,
            Instruction::DIV { .. } => 4,
            Instruction::MOD { .. } => 4,
            Instruction::INC { .. } => 2,
            Instruction::DEC { .. } => 2,
            Instruction::PUSHREG { .. } => 2,
            Instruction::POPREG { .. } => 2,
            Instruction::JMP { .. } => 5,
            Instruction::JMPN { .. } => 5,
            Instruction::JMPP { .. } => 5,
            Instruction::JMPZ { .. } => 5,
            Instruction::CALL { .. } => 5,
            Instruction::RET => 1,
            Instruction::CLF => 1,
            Instruction::HLT => 1,
        }
    }

    /// Produces the encoded bytes of this instruction.
    pub fn encode(&self) -> (v: Vec<u8>)
        ensures
            v@ == self.encode_spec(),
    {
        let mut v: Vec<u8> = Vec::new();
        match self {
            Instruction::NOP => {
                v.push(0x00);
            },
            Instruction::MOV { dest, value } => {
                v.push(0x01);
                v.push(*dest);
                push_word(&mut v, i32_to_bits(*value));
            },
            Instruction::LD { dest, address } => {
                v.push(0x02);
                v.push(*dest);
                push_word(&mut v, *address);
            },
            Instruction::ST { src, address } => {
                v.push(0x03);
                v.push(*src);
                push_word(&mut v, *address);
            },
            Instruction::AND { dest, reg1, reg2 } => {
                v.push(0x04);
                v.push(*dest);
                v.push(*reg1);
                v.push(*reg2);
            },
            Instruction::OR { dest, reg1, reg2 } => {
                v.push(0x05);
                v.push(*dest);
                v.push(*reg1);
                v.push(*reg2);
            },
            Instruction::XOR { dest, reg1, reg2 } => {
                v.push(0x06);
                v.push(*dest);
                v.push(*reg1);
                v.push(*reg2);
            },
            Instruction::NOT { dest, reg } => {
                v.push(0x07);
                v.push(*dest);
                v.push(*reg);
            },
            Instruction::CMP { reg1, reg2 } => {
                v.push(0x08);
                v.push(*reg1);
                v.push(*reg2);
            },
            Instruction::ADD { dest, reg1, reg2 } => {
                v.push(0x09);
                v.push(*dest);
                v.push(*reg1);
                v.push(*reg2);
            },
            Instruction::SUB { dest, reg1, reg2 } => {
                v.push(0x0A);
                v.push(*dest);
                v.push(*reg1);
                v.push(*reg2);
            },
            Instruction::MULT { dest, reg1, reg2 } => {
                v.push(0x0B);
                v.push(*dest);
                v.push(*reg1);
                v.push(*reg2);
            },
            Instruction::DIV { dest, reg1, reg2 } => {
                v.push(0x0C);
                v.push(*dest);
                v.push(*reg1);
                v.push(*reg2);
            },
            Instruction::MOD { dest, reg1, reg2 } => {
                v.push(0x0D);
                v.push(*dest);
                v.push(*reg1);
                v.push(*reg2);
            },
            Instruction::INC { reg } => {
                v.push(0x0E);
                v.push(*reg);
            },
            Instruction::DEC { reg } => {
                v.push(0x0F);
                v.push(*reg);
            },
            Instruction::PUSHREG { reg } => {
                v.push(0x10);
                v.push(*reg);
            },
            Instruction::POPREG { reg } => {
                v.push(0x11);
                v.push(*reg);
            },
            Instruction::JMP { address } => {
                v.push(0x12);
                push_word(&mut v, *address);
            },
            Instruction::JMPN { address } => {
                v.push(0x13);
                push_word(&mut v, *address);
            },
            Instruction::JMPP { address } => {
                v.push(0x14);
                push_word(&mut v, *address);
            },
            Instruction::JMPZ { address } => {
                v.push(0x15);
                push_word(&mut v, *address);
            },
            Instruction::CALL { address } => {
                v.push(0x16);
                push_word(&mut v, *address);
            },
            Instruction::RET => {
                v.push(0x17);
            },
            Instruction::CLF => {
                v.push(0x18);
            },
            Instruction::HLT => {
                v.push(0xFF);
            },
        }
        proof {
            assert(v@ =~= self.encode_spec());
        }
        v
    }
}

/// An instruction's encoded bytes have exactly its encoded length, so the
/// length function agrees with what the encoder emits and the decoder
/// consumes.
pub proof fn lemma_encode_len(i: Instruction)
    ensures
        i.encode_spec().len() == i.size_spec(),
{
}

/// Appends the little-endian bytes of a 32-bit word.
fn push_word(v: &mut Vec<u8>, w: u32)
    ensures
        final(v)@ == old(v)@ + u32_le_bytes(w),
{
    let bytes = u32_to_le(w);
    v.push(bytes[0]);
    v.push(bytes[1]);
    v.push(bytes[2]);
    v.push(bytes[3]);
    proof {
        assert(v@ =~= old(v)@ + u32_le_bytes(w));
    }
}

} // verus!
