use forge_vm::cpu::{PcTransition, CPU};
use forge_vm::error::VmError;
use forge_vm::instructions::Instruction;
use forge_vm::memory::Memory;
use forge_vm::stack::Stack;
use forge_vm::VM;

#[test]
fn test_vm_create() {
    let vm = VM::new(1024, 1024);
    assert_eq!(vm.stack().capacity(), 1024);
    assert_eq!(vm.memory().capacity(), 1024);
}

#[test]
fn test_vm_run() {
    let mut vm = VM::new(1024, 1024);
    let program = vec![0x00, 0x00, 0xff]; // NOP, NOP, HLT
    assert_eq!(vm.run(&program), Ok(3));
}

#[test]
fn test_vm_run_with_stack_overflow() {
    let mut vm = VM::new(1, 1024);
    let program = vec![0x10, 0x00, 0x10, 0x00, 0xff]; // PUSH 0, PUSH 0, HLT
    assert_eq!(vm.run(&program), Err(VmError::StackOverflow));
}

#[test]
fn test_vm_run_with_stack_underflow() {
    let mut vm = VM::new(1024, 1024);
    let program = vec![0x11, 0x00, 0xff]; // POP 0, HLT
    assert_eq!(vm.run(&program), Err(VmError::StackUnderflow));
}

#[test]
fn test_vm_run_with_memory_out_of_bounds() {
    let mut vm = VM::new(1024, 1024);
    let program = vec![0x02, 0x01, 0x00, 0x04, 0x00, 0x00, 0xff]; // LD 1 0x00000400, HLT
    assert_eq!(
        vm.run(&program),
        Err(VmError::MemoryOutOfBounds {
            address: 1024,
            size: 4
        })
    );
}

#[test]
fn test_vm_run_with_invalid_op_code() {
    let mut vm = VM::new(1024, 1024);
    let program = vec![0xf0, 0xff]; // Invalid instruction
    assert_eq!(vm.run(&program), Err(VmError::InvalidOpcode { opcode: 0xf0 }));
}

#[test]
fn test_vm_run_add() {
    let mut vm = VM::new(1024, 1024);
    let program = vec![
        0x01, 0x00, 0x02, 0x00, 0x00, 0x00, 0x01, 0x01, 0x07, 0x00, 0x00, 0x00, 0x09, 0x00,
        0x00, 0x01, 0xff,
    ]; // MOV r0 2, MOV r1 7, ADD r0 r0 r1, HLT
    assert_eq!(vm.run(&program), Ok(4));
    assert_eq!(vm.cpu().get_register(0), Ok(9));
}

#[test]
fn test_vm_run_with_division_by_zero() {
    let mut vm = VM::new(1024, 1024);
    // MOV r0 5, DIV r0 r0 r1 with r1 still zero, HLT
    let program = vec![
        0x01, 0x00, 0x05, 0x00, 0x00, 0x00, 0x0C, 0x00, 0x00, 0x01, 0xff,
    ];
    assert_eq!(vm.run(&program), Err(VmError::DivisionByZero));
}

/// A jump lands exactly at its target address: the jumped-to instruction is
/// the next one fetched, with no additional advance.
#[test]
fn test_vm_run_jump_lands_exactly() {
    let mut vm = VM::new(1024, 1024);
    // 0: JMP 6; 5: HLT (skipped); 6: NOP; 7: HLT
    let program = vec![0x12, 0x06, 0x00, 0x00, 0x00, 0xff, 0x00, 0xff];
    assert_eq!(vm.run(&program), Ok(3));
}

/// A jump past the end of the program faults the run at the fetch.
#[test]
fn test_vm_run_jump_out_of_program() {
    let mut vm = VM::new(1024, 1024);
    let program = vec![0x12, 0x40, 0x00, 0x00, 0x00, 0xff]; // JMP 64; HLT
    assert_eq!(vm.run(&program), Err(VmError::InvalidInstruction));
}

/// A call pushes the calling instruction's own address, which the callee
/// can pop.
#[test]
fn test_vm_run_call_pushes_pc() {
    let mut vm = VM::new(1024, 1024);
    // 0: CALL 6; 5: HLT; 6: POPREG r0; 8: HLT
    let program = vec![0x16, 0x06, 0x00, 0x00, 0x00, 0xff, 0x11, 0x00, 0xff];
    assert_eq!(vm.run(&program), Ok(3));
    assert_eq!(vm.cpu().get_register(0), Ok(0));
}

/// A return pops an address off the stack and jumps to it.
#[test]
fn test_vm_run_ret_jumps_to_popped_address() {
    let mut vm = VM::new(1024, 1024);
    // 0: MOV r0 10; 6: PUSHREG r0; 8: RET; 9: HLT (skipped); 10: HLT
    let program = vec![
        0x01, 0x00, 0x0A, 0x00, 0x00, 0x00, 0x10, 0x00, 0x17, 0xff, 0xff,
    ];
    assert_eq!(vm.run(&program), Ok(4));
}

/// Jump-if-zero fires exactly when the zero flag is set: comparing a
/// register with itself sets it, and the jump skips the increment.
#[test]
fn test_vm_run_jmpz_taken() {
    let mut vm = VM::new(1024, 1024);
    // 0: CMP r0 r0; 3: JMPZ 10; 8: INC r1; 10: HLT
    let program = vec![0x08, 0x00, 0x00, 0x15, 0x0A, 0x00, 0x00, 0x00, 0x0E, 0x01, 0xff];
    assert_eq!(vm.run(&program), Ok(3));
    assert_eq!(vm.cpu().get_register(1), Ok(0));
}

/// Jump-if-not-negative fires whenever the negative flag is clear — which
/// includes the freshly reset state, not only strictly positive results.
#[test]
fn test_vm_run_jmpp_fires_on_clear_flags() {
    let mut vm = VM::new(1024, 1024);
    // 0: JMPP 7; 5: INC r0; 7: HLT
    let program = vec![0x14, 0x07, 0x00, 0x00, 0x00, 0x0E, 0x00, 0xff];
    assert_eq!(vm.run(&program), Ok(2));
    assert_eq!(vm.cpu().get_register(0), Ok(0));
}

/// A store followed by a load through memory returns the stored register
/// value unchanged.
#[test]
fn test_vm_run_store_load_round_trip() {
    let mut vm = VM::new(1024, 1024);
    // 0: MOV r0 0x12345678; 6: ST r0 @8; 12: LD r1 @8; 18: HLT
    let program = vec![
        0x01, 0x00, 0x78, 0x56, 0x34, 0x12, 0x03, 0x00, 0x08, 0x00, 0x00, 0x00, 0x02, 0x01,
        0x08, 0x00, 0x00, 0x00, 0xff,
    ];
    assert_eq!(vm.run(&program), Ok(4));
    assert_eq!(vm.cpu().get_register(1), Ok(0x12345678));
}

/// Arithmetic that overflows the 32-bit width stores the wrapped result and
/// sets the overflow flag; zero and negative describe the wrapped value.
#[test]
fn test_vm_run_add_overflow_wraps_and_flags() {
    let mut vm = VM::new(1024, 1024);
    // 0: MOV r0 i32::MAX; 6: INC r0; 8: HLT
    let program = vec![0x01, 0x00, 0xFF, 0xFF, 0xFF, 0x7F, 0x0E, 0x00, 0xff];
    assert_eq!(vm.run(&program), Ok(3));
    assert_eq!(vm.cpu().get_register(0), Ok(i32::MIN));
    let flags = vm.cpu().flags();
    assert!(flags.overflow);
    assert!(flags.negative);
    assert!(!flags.zero);
}

/// A second run starts from a fully reset machine: registers, flags, memory
/// and stack carry nothing over.
#[test]
fn test_vm_run_resets_between_runs() {
    let mut vm = VM::new(1024, 1024);
    // MOV r0 7; PUSHREG r0; ST r0 @0; HLT
    let program = vec![
        0x01, 0x00, 0x07, 0x00, 0x00, 0x00, 0x10, 0x00, 0x03, 0x00, 0x00, 0x00, 0x00, 0x00,
        0xff,
    ];
    assert_eq!(vm.run(&program), Ok(4));
    assert_eq!(vm.cpu().get_register(0), Ok(7));
    assert_eq!(vm.stack().len(), 1);
    // LD r1 @0 reads zeroed memory again; nothing survives the reset.
    let second = vec![0x02, 0x01, 0x00, 0x00, 0x00, 0x00, 0xff];
    assert_eq!(vm.run(&second), Ok(2));
    assert_eq!(vm.cpu().get_register(0), Ok(0));
    assert_eq!(vm.cpu().get_register(1), Ok(0));
    assert_eq!(vm.stack().len(), 0);
}

#[test]
fn test_vm_get_register_out_of_range() {
    let vm = VM::new(16, 16);
    assert_eq!(
        vm.cpu().get_register(200),
        Err(VmError::InvalidRegister { register: 200 })
    );
}

fn fresh_cpu() -> (CPU, Memory, Stack<i32>) {
    (CPU::new(), Memory::new(64), Stack::new(8))
}

fn set_register(cpu: &mut CPU, memory: &mut Memory, stack: &mut Stack<i32>, reg: u8, value: i32) {
    let r = cpu.execute_instruction(Instruction::MOV { dest: reg, value }, memory, stack);
    assert_eq!(r, Ok(PcTransition::Advance));
}

/// Subtraction that wraps below the minimum sets the overflow flag and
/// stores the wrapped result.
#[test]
fn test_cpu_sub_overflow() {
    let (mut cpu, mut memory, mut stack) = fresh_cpu();
    set_register(&mut cpu, &mut memory, &mut stack, 0, i32::MIN);
    set_register(&mut cpu, &mut memory, &mut stack, 1, 1);
    let r = cpu.execute_instruction(
        Instruction::SUB { dest: 2, reg1: 0, reg2: 1 },
        &mut memory,
        &mut stack,
    );
    assert_eq!(r, Ok(PcTransition::Advance));
    assert_eq!(cpu.get_register(2), Ok(i32::MAX));
    assert!(cpu.flags().overflow);
    assert!(!cpu.flags().negative);
    assert!(!cpu.flags().zero);
}

/// Multiplication wraps modulo two to the thirty-second and reports the
/// overflow; an in-range product leaves the flag clear.
#[test]
fn test_cpu_mult_overflow_and_exact() {
    let (mut cpu, mut memory, mut stack) = fresh_cpu();
    set_register(&mut cpu, &mut memory, &mut stack, 0, 65536);
    set_register(&mut cpu, &mut memory, &mut stack, 1, 65536);
    let r = cpu.execute_instruction(
        Instruction::MULT { dest: 2, reg1: 0, reg2: 1 },
        &mut memory,
        &mut stack,
    );
    assert_eq!(r, Ok(PcTransition::Advance));
    assert_eq!(cpu.get_register(2), Ok(0)); // 2^32 wraps to zero
    assert!(cpu.flags().overflow);
    assert!(cpu.flags().zero);

    set_register(&mut cpu, &mut memory, &mut stack, 0, -3);
    set_register(&mut cpu, &mut memory, &mut stack, 1, 7);
    let r = cpu.execute_instruction(
        Instruction::MULT { dest: 2, reg1: 0, reg2: 1 },
        &mut memory,
        &mut stack,
    );
    assert_eq!(r, Ok(PcTransition::Advance));
    assert_eq!(cpu.get_register(2), Ok(-21));
    assert!(!cpu.flags().overflow);
    assert!(cpu.flags().negative);
}

/// Division truncates toward zero; dividing the minimum value by minus one
/// wraps and sets the overflow flag; the remainder follows the dividend's
/// sign and never sets overflow.
#[test]
fn test_cpu_div_mod_semantics() {
    let (mut cpu, mut memory, mut stack) = fresh_cpu();
    set_register(&mut cpu, &mut memory, &mut stack, 0, 7);
    set_register(&mut cpu, &mut memory, &mut stack, 1, -2);
    let r = cpu.execute_instruction(
        Instruction::DIV { dest: 2, reg1: 0, reg2: 1 },
        &mut memory,
        &mut stack,
    );
    assert_eq!(r, Ok(PcTransition::Advance));
    assert_eq!(cpu.get_register(2), Ok(-3));
    assert!(!cpu.flags().overflow);

    set_register(&mut cpu, &mut memory, &mut stack, 0, i32::MIN);
    set_register(&mut cpu, &mut memory, &mut stack, 1, -1);
    let r = cpu.execute_instruction(
        Instruction::DIV { dest: 2, reg1: 0, reg2: 1 },
        &mut memory,
        &mut stack,
    );
    assert_eq!(r, Ok(PcTransition::Advance));
    assert_eq!(cpu.get_register(2), Ok(i32::MIN));
    assert!(cpu.flags().overflow);

    set_register(&mut cpu, &mut memory, &mut stack, 0, -7);
    set_register(&mut cpu, &mut memory, &mut stack, 1, 2);
    let r = cpu.execute_instruction(
        Instruction::MOD { dest: 2, reg1: 0, reg2: 1 },
        &mut memory,
        &mut stack,
    );
    assert_eq!(r, Ok(PcTransition::Advance));
    assert_eq!(cpu.get_register(2), Ok(-1));
    assert!(cpu.flags().overflow); // kept from the wrapping divide above
    assert!(cpu.flags().negative);
}

/// Logical instructions compute bitwise results and set only the zero and
/// negative flags; compare touches only the zero flag.
#[test]
fn test_cpu_logic_and_compare() {
    let (mut cpu, mut memory, mut stack) = fresh_cpu();
    set_register(&mut cpu, &mut memory, &mut stack, 0, 0b1100);
    set_register(&mut cpu, &mut memory, &mut stack, 1, 0b1010);
    let r = cpu.execute_instruction(
        Instruction::AND { dest: 2, reg1: 0, reg2: 1 },
        &mut memory,
        &mut stack,
    );
    assert_eq!(r, Ok(PcTransition::Advance));
    assert_eq!(cpu.get_register(2), Ok(0b1000));
    let r = cpu.execute_instruction(
        Instruction::OR { dest: 3, reg1: 0, reg2: 1 },
        &mut memory,
        &mut stack,
    );
    assert_eq!(r, Ok(PcTransition::Advance));
    assert_eq!(cpu.get_register(3), Ok(0b1110));
    let r = cpu.execute_instruction(
        Instruction::XOR { dest: 4, reg1: 0, reg2: 1 },
        &mut memory,
        &mut stack,
    );
    assert_eq!(r, Ok(PcTransition::Advance));
    assert_eq!(cpu.get_register(4), Ok(0b0110));
    let r = cpu.execute_instruction(Instruction::NOT { dest: 5, reg: 0 }, &mut memory, &mut stack);
    assert_eq!(r, Ok(PcTransition::Advance));
    assert_eq!(cpu.get_register(5), Ok(!0b1100));
    assert!(cpu.flags().negative);
    assert!(!cpu.flags().zero);

    let r = cpu.execute_instruction(
        Instruction::CMP { reg1: 0, reg2: 0 },
        &mut memory,
        &mut stack,
    );
    assert_eq!(r, Ok(PcTransition::Advance));
    assert!(cpu.flags().zero);
    assert!(cpu.flags().negative); // untouched by the compare
}

/// The halt instruction is a structural transition, not an error, and
/// changes nothing.
#[test]
fn test_cpu_halt_transition() {
    let (mut cpu, mut memory, mut stack) = fresh_cpu();
    let r = cpu.execute_instruction(Instruction::HLT, &mut memory, &mut stack);
    assert_eq!(r, Ok(PcTransition::Halt));
    assert_eq!(cpu.pc(), 0);
}
