//! The instruction decoder.
//!
//! Stateless and referentially transparent: what `decode_next_instruction`
//! returns is a function of the program bytes and the program counter alone,
//! and is specified exactly by [`decode_at`].  Decoding validates every
//! register operand, so every instruction it produces is well formed; this
//! is the sole validation point for the register indices that execution
//! later uses for direct register-file access.

use crate::error::VmError;
use crate::hardware_config::REGISTERS_COUNT;
use crate::instructions::{lemma_encode_len, opcode_of_byte, Instruction, OpCode};
use crate::word::{
    bits_to_i32, i32_of_u32, lemma_i32_bits_round_trip, lemma_u32_le_round_trip, u32_from_le,
    u32_le_bytes, u32_of_i32, u32_of_le,
};
use crate::program::Program;
use vstd::prelude::*;

verus! {

/// The instruction decoded from `bytes`, the exact encoded bytes of one
/// instruction with opcode `op`; or `InvalidRegister` naming the first
/// register operand that is not below the register count.
///
/// Register operands are single bytes; immediate values and addresses are
/// little-endian 32-bit words at fixed offsets.
pub open spec fn decode_fields(op: OpCode, bytes: Seq<u8>) -> Result<Instruction, VmError>
    recommends
        bytes.len() == op.size_spec(),
{
    match op {
        OpCode::NOP => Ok(Instruction::NOP),
        OpCode::MOV => {
            if bytes[1] >= REGISTERS_COUNT {
                Err(VmError::InvalidRegister { register: bytes[1] })
            } else {
                Ok(
                    Instruction::MOV {
                        dest: bytes[1],
                        value: i32_of_u32(u32_of_le(bytes.subrange(2, 6))),
                    },
                )
            }
        },
        OpCode::LD => {
            if bytes[1] >= REGISTERS_COUNT {
                Err(VmError::InvalidRegister { register: bytes[1] })
            } else {
                Ok(Instruction::LD { dest: bytes[1], address: u32_of_le(bytes.subrange(2, 6)) })
            }
        },
        OpCode::ST => {
            if bytes[1] >= REGISTERS_COUNT {
                Err(VmError::InvalidRegister { register: bytes[1] })
            } else {
                Ok(Instruction::ST { src: bytes[1], address: u32_of_le(bytes.subrange(2, 6)) })
            }
        },
        OpCode::AND => {
            match three_registers(bytes) {
                Err(e) => Err(e),
                Ok((dest, reg1, reg2)) => Ok(Instruction::AND { dest, reg1, reg2 }),
            }
        },
        OpCode::OR => {
            match three_registers(bytes) {
                Err(e) => Err(e),
                Ok((dest, reg1, reg2)) => Ok(Instruction::OR { dest, reg1, reg2 }),
            }
        },
        OpCode::XOR => {
            match three_registers(bytes) {
                Err(e) => Err(e),
                Ok((dest, reg1, reg2)) => Ok(Instruction::XOR { dest, reg1, reg2 }),
            }
        },
        OpCode::NOT => {
            if bytes[1] >= REGISTERS_COUNT {
                Err(VmError::InvalidRegister { register: bytes[1] })
            } else if bytes[2] >= REGISTERS_COUNT {
                Err(VmError::InvalidRegister { register: bytes[2] })
            } else {
                Ok(Instruction::NOT { dest: bytes[1], reg: bytes[2] })
            }
        },
        OpCode::CMP => {
            if bytes[1] >= REGISTERS_COUNT {
                Err(VmError::InvalidRegister { register: bytes[1] })
            } else if bytes[2] >= REGISTERS_COUNT {
                Err(VmError::InvalidRegister { register: bytes[2] })
            } else {
                Ok(Instruction::CMP { reg1: bytes[1], reg2: bytes[2] })
            }
        },
        OpCode::ADD => {
            match three_registers(bytes) {
                Err(e) => Err(e),
                Ok((dest, reg1, reg2)) => Ok(Instruction::ADD { dest, reg1, reg2 }),
            }
        },
        OpCode::SUB => {
            match three_registers(bytes) {
                Err(e) => Err(e),
                Ok((dest, reg1, reg2)) => Ok(Instruction::SUB { dest, reg1, reg2 }),
            }
        },
        OpCode::MULT => {
            match three_registers(bytes) {
                Err(e) => Err(e),
                Ok((dest, reg1, reg2)) => Ok(Instruction::MULT { dest, reg1, reg2 }),
            }
        },
        OpCode::DIV => {
            match three_registers(bytes) {
                Err(e) => Err(e),
                Ok((dest, reg1, reg2)) => Ok(Instruction::DIV { dest, reg1, reg2 }),
            }
        },
        OpCode::MOD => {
            match three_registers(bytes) {
                Err(e) => Err(e),
                Ok((dest, reg1, reg2)) => Ok(Instruction::MOD { dest, reg1, reg2 }),
            }
        },
        OpCode::INC => {
            if bytes[1] >= REGISTERS_COUNT {
                Err(VmError::InvalidRegister { register: bytes[1] })
            } else {
                Ok(Instruction::INC { reg: bytes[1] })
            }
        },
        OpCode::DEC => {
            if bytes[1] >= REGISTERS_COUNT {
                Err(VmError::InvalidRegister { register: bytes[1] })
            } else {
                Ok(Instruction::DEC { reg: bytes[1] })
            }
        },
        OpCode::PUSHREG => {
            if bytes[1] >= REGISTERS_COUNT {
                Err(VmError::InvalidRegister { register: bytes[1] })
            } else {
                Ok(Instruction::PUSHREG { reg: bytes[1] })
            }
        },
        OpCode::POPREG => {
            if bytes[1] >= REGISTERS_COUNT {
                Err(VmError::InvalidRegister { register: bytes[1] })
            } else {
                Ok(Instruction::POPREG { reg: bytes[1] })
            }
        },
        OpCode::JMP => Ok(Instruction::JMP { address: u32_of_le(bytes.subrange(1, 5)) }),
        OpCode::JMPN => Ok(Instruction::JMPN { address: u32_of_le(bytes.subrange(1, 5)) }),
        OpCode::JMPP => Ok(Instruction::JMPP { address: u32_of_le(bytes.subrange(1, 5)) }),
        OpCode::JMPZ => Ok(Instruction::JMPZ { address: u32_of_le(bytes.subrange(1, 5)) }),
        OpCode::CALL => Ok(Instruction::CALL { address: u32_of_le(bytes.subrange(1, 5)) }),
        OpCode::RET => Ok(Instruction::RET),
        OpCode::CLF => Ok(Instruction::CLF),
        OpCode::HLT => Ok(Instruction::HLT),
    }
}

/// The three register operands at bytes one to three, validated in order.
pub open spec fn three_registers(bytes: Seq<u8>) -> Result<(u8, u8, u8), VmError> {
    if bytes[1] >= REGISTERS_COUNT {
        Err(VmError::InvalidRegister { register: bytes[1] })
    } else if bytes[2] >= REGISTERS_COUNT {
        Err(VmError::InvalidRegister { register: bytes[2] })
    } else if bytes[3] >= REGISTERS_COUNT {
        Err(VmError::InvalidRegister { register: bytes[3] })
    } else {
        Ok((bytes[1], bytes[2], bytes[3]))
    }
}

/// The instruction decoded from `prog` at offset `pc`:
/// `InvalidInstruction` when `pc` is at or past the end of the program or
/// the program ends before the instruction is complete, `InvalidOpcode`
/// when the leading byte is not a recognised discriminant, and otherwise
/// the operand fields read by [`decode_fields`].
pub open spec fn decode_at(prog: Seq<u8>, pc: nat) -> Result<Instruction, VmError> {
    if pc >= prog.len() {
        Err(VmError::InvalidInstruction)
    } else {
        match opcode_of_byte(prog[pc as int]) {
            None => Err(VmError::InvalidOpcode { opcode: prog[pc as int] }),
            Some(op) => {
                if prog.len() < pc + op.size_spec() {
                    Err(VmError::InvalidInstruction)
                } else {
                    decode_fields(op, prog.subrange(pc as int, (pc + op.size_spec()) as int))
                }
            },
        }
    }
}

/// The stateless decoder.
pub struct Decoder;

impl Decoder {
    /// Creates a decoder.
    pub fn new() -> Decoder {
        Decoder
    }

    /// Decodes the instruction at offset `pc` of `program`, returning
    /// exactly what [`decode_at`] specifies.  Every instruction returned is
    /// well formed and fits within the program.
    pub fn decode_next_instruction(&self, program: &Program, pc: usize) -> (r: Result<
        Instruction,
        VmError,
    >)
        ensures
            r == decode_at(program@, pc as nat),
            r matches Ok(i) ==> i.wf() && pc + i.size_spec() <= program@.len(),
    {
        if pc >= program.size() {
            return Err(VmError::InvalidInstruction);
        }
        let program_slice = program.slice_from(pc);

        let opcode = OpCode::from_byte(program_slice[0])?;

        let instruction_len = opcode.size();

        if program_slice.len() < instruction_len {
            return Err(VmError::InvalidInstruction);
        }
        let ghost bytes = program@.subrange(pc as int, (pc + opcode.size_spec()) as int);
        proof {
            assert(bytes =~= program_slice@.take(opcode.size_spec() as int));
        }

        match opcode {
            OpCode::NOP => Ok(Instruction::NOP),
            OpCode::MOV => {
                let dest = register_address(program_slice[1])?;
                let value = read_i32(program_slice, 2)?;
                proof {
                    assert(bytes.subrange(2, 6) =~= program_slice@.subrange(2, 6));
                }
                Ok(Instruction::MOV { dest, value })
            },
            OpCode::LD => {
                let dest = register_address(program_slice[1])?;
                let address = read_u32(program_slice, 2)?;
                proof {
                    assert(bytes.subrange(2, 6) =~= program_slice@.subrange(2, 6));
                }
                Ok(Instruction::LD { dest, address })
            },
            OpCode::ST => {
                let src = register_address(program_slice[1])?;
                let address = read_u32(program_slice, 2)?;
                proof {
                    assert(bytes.subrange(2, 6) =~= program_slice@.subrange(2, 6));
                }
                Ok(Instruction::ST { src, address })
            },
            OpCode::AND => {
                let dest = register_address(program_slice[1])?;
                let reg1 = register_address(program_slice[2])?;
                let reg2 = register_address(program_slice[3])?;
                Ok(Instruction::AND { dest, reg1, reg2 })
            },
            OpCode::OR => {
                let dest = register_address(program_slice[1])?;
                let reg1 = register_address(program_slice[2])?;
                let reg2 = register_address(program_slice[3])?;
                Ok(Instruction::OR { dest, reg1, reg2 })
            },
            OpCode::XOR => {
                let dest = register_address(program_slice[1])?;
                let reg1 = register_address(program_slice[2])?;
                let reg2 = register_address(program_slice[3])?;
                Ok(Instruction::XOR { dest, reg1, reg2 })
            },
            OpCode::NOT => {
                let dest = register_address(program_slice[1])?;
                let reg = register_address(program_slice[2])?;
                Ok(Instruction::NOT { dest, reg })
            },
            OpCode::CMP => {
                let reg1 = register_address(program_slice[1])?;
                let reg2 = register_address(program_slice[2])?;
                Ok(Instruction::CMP { reg1, reg2 })
            },
            OpCode::ADD => {
                let dest = register_address(program_slice[1])?;
                let reg1 = register_address(program_slice[2])?;
                let reg2 = register_address(program_slice[3])?;
                Ok(Instruction::ADD { dest, reg1, reg2 })
            },
            OpCode::SUB => {
                let dest = register_address(program_slice[1])?;
                let reg1 = register_address(program_slice[2])?;
                let reg2 = register_address(program_slice[3])?;
                Ok(Instruction::SUB { dest, reg1, reg2 })
            },
            OpCode::MULT => {
                let dest = register_address(program_slice[1])?;
                let reg1 = register_address(program_slice[2])?;
                let reg2 = register_address(program_slice[3])?;
                Ok(Instruction::MULT { dest, reg1, reg2 })
            },
            OpCode::DIV => {
                let dest = register_address(program_slice[1])?;
                let reg1 = register_address(program_slice[2])?;
                let reg2 = register_address(program_slice[3])?;
                Ok(Instruction::DIV { dest, reg1, reg2 })
            },
            OpCode::MOD => {
                let dest = register_address(program_slice[1])?;
                let reg1 = register_address(program_slice[2])?;
                let reg2 = register_address(program_slice[3])?;
                Ok(Instruction::MOD { dest, reg1, reg2 })
            },
            OpCode::INC => {
                let reg = register_address(program_slice[1])?;
                Ok(Instruction::INC { reg })
            },
            OpCode::DEC => {
                let reg = register_address(program_slice[1])?;
                Ok(Instruction::DEC { reg })
            },
            OpCode::PUSHREG => {
                let reg = register_address(program_slice[1])?;
                Ok(Instruction::PUSHREG { reg })
            },
            OpCode::POPREG => {
                let reg = register_address(program_slice[1])?;
                Ok(Instruction::POPREG { reg })
            },
            OpCode::JMP => {
                let address = read_u32(program_slice, 1)?;
                proof {
                    assert(bytes.subrange(1, 5) =~= program_slice@.subrange(1, 5));
                }
                Ok(Instruction::JMP { address })
            },
            OpCode::JMPN => {
                let address = read_u32(program_slice, 1)?;
                proof {
                    assert(bytes.subrange(1, 5) =~= program_slice@.subrange(1, 5));
                }
                Ok(Instruction::JMPN { address })
            },
            OpCode::JMPP => {
                let address = read_u32(program_slice, 1)?;
                proof {
                    assert(bytes.subrange(1, 5) =~= program_slice@.subrange(1, 5));
                }
                Ok(Instruction::JMPP { address })
            },
            OpCode::JMPZ => {
                let address = read_u32(program_slice, 1)?;
                proof {
                    assert(bytes.subrange(1, 5) =~= program_slice@.subrange(1, 5));
                }
                Ok(Instruction::JMPZ { address })
            },
            OpCode::CALL => {
                let address = read_u32(program_slice, 1)?;
                proof {
                    assert(bytes.subrange(1, 5) =~= program_slice@.subrange(1, 5));
                }
                Ok(Instruction::CALL { address })
            },
            OpCode::RET => Ok(Instruction::RET),
            OpCode::CLF => Ok(Instruction::CLF),
            OpCode::HLT => Ok(Instruction::HLT),
        }
    }
}

/// Validates a register operand: any index at or above the register count is
/// rejected with `InvalidRegister`.
fn register_address(register: u8) -> (r: Result<u8, VmError>)
    ensures
        r == (if register >= REGISTERS_COUNT {
            Err::<u8, VmError>(VmError::InvalidRegister { register })
        } else {
            Ok::<u8, VmError>(register)
        }),
{
    if register >= REGISTERS_COUNT {
        return Err(VmError::InvalidRegister { register });
    }
    Ok(register)
}

/// Reads a little-endian signed 32-bit word starting at byte `start`.
pub fn read_i32(data: &[u8], start: usize) -> (r: Result<i32, VmError>)
    requires
        start + 4 <= data@.len(),
    ensures
        r == Ok::<i32, VmError>(i32_of_u32(u32_of_le(data@.subrange(start as int, start + 4)))),
{
    let w = u32_from_le(data[start], data[start + 1], data[start + 2], data[start + 3]);
    proof {
        assert(seq![
            data@[start as int],
            data@[start + 1],
            data@[start + 2],
            data@[start + 3],
        ] =~= data@.subrange(start as int, start + 4));
    }
    Ok(bits_to_i32(w))
}

/// Reads a little-endian unsigned 32-bit word starting at byte `start`.
pub fn read_u32(data: &[u8], start: usize) -> (r: Result<u32, VmError>)
    requires
        start + 4 <= data@.len(),
    ensures
        r == Ok::<u32, VmError>(u32_of_le(data@.subrange(start as int, start + 4))),
{
    let w = u32_from_le(data[start], data[start + 1], data[start + 2], data[start + 3]);
    proof {
        assert(seq![
            data@[start as int],
            data@[start + 1],
            data@[start + 2],
            data@[start + 3],
        ] =~= data@.subrange(start as int, start + 4));
    }
    Ok(w)
}

/// Decode inverts encode: decoding the encoded bytes of any well-formed
/// instruction reproduces that instruction, opcode and operands exactly.
pub proof fn lemma_decode_encode(i: Instruction)
    requires
        i.wf(),
    ensures
        decode_at(i.encode_spec(), 0) == Ok::<Instruction, VmError>(i),
{
    lemma_encode_len(i);
    let b = i.encode_spec();
    assert(b.subrange(0, b.len() as int) =~= b);
    match i {
        Instruction::MOV { dest, value } => {
            assert(b.subrange(2, 6) =~= u32_le_bytes(u32_of_i32(value)));
            lemma_u32_le_round_trip(u32_of_i32(value));
            lemma_i32_bits_round_trip(value);
        },
        Instruction::LD { dest, address } => {
            assert(b.subrange(2, 6) =~= u32_le_bytes(address));
            lemma_u32_le_round_trip(address);
        },
        Instruction::ST { src, address } => {
            assert(b.subrange(2, 6) =~= u32_le_bytes(address));
            lemma_u32_le_round_trip(address);
        },
        Instruction::JMP { address } => {
            assert(b.subrange(1, 5) =~= u32_le_bytes(address));
            lemma_u32_le_round_trip(address);
        },
        Instruction::JMPN { address } => {
            assert(b.subrange(1, 5) =~= u32_le_bytes(address));
            lemma_u32_le_round_trip(address);
        },
        Instruction::JMPP { address } => {
            assert(b.subrange(1, 5) =~= u32_le_bytes(address));
            lemma_u32_le_round_trip(address);
        },
        Instruction::JMPZ { address } => {
            assert(b.subrange(1, 5) =~= u32_le_bytes(address));
            lemma_u32_le_round_trip(address);
        },
        Instruction::CALL { address } => {
            assert(b.subrange(1, 5) =~= u32_le_bytes(address));
            lemma_u32_le_round_trip(address);
        },
        _ => {},
    }
}

} // verus!
