use forge_vm::decoder::{read_i32, read_u32, Decoder};
use forge_vm::error::VmError;
use forge_vm::instructions::{Instruction, OpCode};
use forge_vm::program::Program;

#[test]
fn test_read_i32() {
    let data = [0x78, 0x56, 0x34, 0x12];
    assert_eq!(read_i32(&data, 0).unwrap(), 0x12345678);
}

#[test]
fn test_read_u32() {
    let data = [0x78, 0x56, 0x34, 0x12];
    assert_eq!(read_u32(&data, 0).unwrap(), 0x12345678);
}

#[test]
fn test_read_i32_negative() {
    let data = [0xFF, 0xFF, 0xFF, 0xFF];
    assert_eq!(read_i32(&data, 0).unwrap(), -1);
}

#[test]
fn test_read_u32_offset() {
    let data = [0x00, 0x01, 0x00, 0x00, 0x80];
    assert_eq!(read_u32(&data, 1).unwrap(), 0x80000001);
}

fn decode_one(bytes: &[u8]) -> Result<Instruction, VmError> {
    let program = Program::new(bytes);
    Decoder::new().decode_next_instruction(&program, 0)
}

/// Decoding the bytes produced for an instruction reproduces the
/// instruction's opcode and operands exactly, for every operand shape.
#[test]
fn test_encode_decode_round_trip() {
    let samples = vec![
        Instruction::NOP,
        Instruction::MOV { dest: 3, value: -123456 },
        Instruction::MOV { dest: 0, value: i32::MIN },
        Instruction::LD { dest: 1, address: 0xDEADBEEF },
        Instruction::ST { src: 15, address: 4 },
        Instruction::AND { dest: 1, reg1: 2, reg2: 3 },
        Instruction::OR { dest: 3, reg1: 2, reg2: 1 },
        Instruction::XOR { dest: 0, reg1: 0, reg2: 0 },
        Instruction::NOT { dest: 4, reg: 5 },
        Instruction::CMP { reg1: 6, reg2: 7 },
        Instruction::ADD { dest: 0, reg1: 1, reg2: 2 },
        Instruction::SUB { dest: 2, reg1: 1, reg2: 0 },
        Instruction::MULT { dest: 5, reg1: 5, reg2: 5 },
        Instruction::DIV { dest: 8, reg1: 9, reg2: 10 },
        Instruction::MOD { dest: 11, reg1: 12, reg2: 13 },
        Instruction::INC { reg: 14 },
        Instruction::DEC { reg: 0 },
        Instruction::PUSHREG { reg: 7 },
        Instruction::POPREG { reg: 8 },
        Instruction::JMP { address: 0 },
        Instruction::JMPN { address: 0xFFFFFFFF },
        Instruction::JMPP { address: 1 },
        Instruction::JMPZ { address: 0x1000 },
        Instruction::CALL { address: 42 },
        Instruction::RET,
        Instruction::CLF,
        Instruction::HLT,
    ];
    for instruction in samples {
        let bytes = instruction.encode();
        assert_eq!(bytes.len(), instruction.size());
        assert_eq!(decode_one(&bytes), Ok(instruction));
    }
}

#[test]
fn test_decode_invalid_opcode() {
    assert_eq!(
        decode_one(&[0xF0, 0xFF]),
        Err(VmError::InvalidOpcode { opcode: 0xF0 })
    );
}

#[test]
fn test_decode_empty_program() {
    assert_eq!(decode_one(&[]), Err(VmError::InvalidInstruction));
}

#[test]
fn test_decode_truncated_instruction() {
    // A MOV is six bytes; two are not enough.
    assert_eq!(decode_one(&[0x01, 0x00]), Err(VmError::InvalidInstruction));
}

#[test]
fn test_decode_past_end() {
    let program = Program::new(&[0x00]);
    assert_eq!(
        Decoder::new().decode_next_instruction(&program, 1),
        Err(VmError::InvalidInstruction)
    );
}

#[test]
fn test_decode_invalid_register() {
    // An ADD naming register 0xFF, above the register count.
    assert_eq!(
        decode_one(&[0x09, 0xFF, 0x00, 0x01]),
        Err(VmError::InvalidRegister { register: 0xFF })
    );
    // A MOV whose destination register is out of range.
    assert_eq!(
        decode_one(&[0x01, 0x99, 0x00, 0x00, 0x00, 0x00]),
        Err(VmError::InvalidRegister { register: 0x99 })
    );
}

#[test]
fn test_decode_operands_little_endian() {
    // LD r2 from address 0x00000400, operands little-endian after the
    // opcode and register bytes.
    assert_eq!(
        decode_one(&[0x02, 0x02, 0x00, 0x04, 0x00, 0x00]),
        Ok(Instruction::LD { dest: 2, address: 1024 })
    );
}

#[test]
fn test_opcode_byte_round_trip() {
    let opcodes = vec![
        OpCode::NOP,
        OpCode::MOV,
        OpCode::LD,
        OpCode::ST,
        OpCode::AND,
        OpCode::OR,
        OpCode::XOR,
        OpCode::NOT,
        OpCode::CMP,
        OpCode::ADD,
        OpCode::SUB,
        OpCode::MULT,
        OpCode::DIV,
        OpCode::MOD,
        OpCode::INC,
        OpCode::DEC,
        OpCode::PUSHREG,
        OpCode::POPREG,
        OpCode::JMP,
        OpCode::JMPN,
        OpCode::JMPP,
        OpCode::JMPZ,
        OpCode::CALL,
        OpCode::RET,
        OpCode::CLF,
        OpCode::HLT,
    ];
    for opcode in opcodes {
        assert_eq!(OpCode::from_byte(opcode.to_byte()), Ok(opcode));
    }
    assert_eq!(
        OpCode::from_byte(0x19),
        Err(VmError::InvalidOpcode { opcode: 0x19 })
    );
}

#[test]
fn test_instruction_sizes() {
    assert_eq!(Instruction::NOP.size(), 1);
    assert_eq!(Instruction::MOV { dest: 0, value: 0 }.size(), 6);
    assert_eq!(Instruction::ST { src: 0, address: 0 }.size(), 6);
    assert_eq!(Instruction::ADD { dest: 0, reg1: 0, reg2: 0 }.size(), 4);
    assert_eq!(Instruction::NOT { dest: 0, reg: 0 }.size(), 3);
    assert_eq!(Instruction::INC { reg: 0 }.size(), 2);
    assert_eq!(Instruction::JMP { address: 0 }.size(), 5);
    assert_eq!(Instruction::HLT.size(), 1);
    assert_eq!(OpCode::MOV.size(), 6);
    assert_eq!(OpCode::CMP.size(), 3);
    assert_eq!(OpCode::CALL.size(), 5);
    assert_eq!(OpCode::RET.size(), 1);
}
