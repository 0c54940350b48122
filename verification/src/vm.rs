//! The driver loop of the machine.
//!
//! A [`VM`] owns a CPU, a memory, a stack and a step counter.  Running a
//! program resets all of them, then repeatedly decodes at the current
//! program counter and executes, counting every fetched instruction —
//! including the halting one.  The run's outcome is specified exactly by
//! iterating the one-step relation [`vm_step`]: on success the returned step
//! count is the number of steps after which the semantics halts, and on
//! failure the returned error is the one the semantics faults with, the
//! machine retaining the state it had reached.

use crate::cpu::{cpu_step, init_cpu_view, CpuView, CPU, PcTransition};
use crate::decoder::{decode_at, Decoder};
use crate::error::VmError;
use crate::memory::Memory;
use crate::program::Program;
use crate::stack::Stack;
use vstd::prelude::*;

verus! {

/// The mathematical state of a whole machine: CPU, memory and stack.
pub ghost struct VmState {
    pub cpu: CpuView,
    pub mem: Seq<u8>,
    pub stk: Seq<i32>,
}

/// The state a run starts from: CPU reset, memory zeroed, stack empty.
pub open spec fn init_vm_state(memory_size: nat) -> VmState {
    VmState {
        cpu: init_cpu_view(),
        mem: Seq::new(memory_size, |i| 0u8),
        stk: Seq::empty(),
    }
}

/// One fetch-decode-execute step of the whole machine: decode at the current
/// program counter, execute, then apply the program-counter transition.  The
/// boolean is true exactly when the decoded instruction was the halt opcode.
/// A decode or execute error is the step's outcome, the state unchanged.
pub open spec fn vm_step(prog: Seq<u8>, cap: nat, s: VmState) -> Result<(VmState, bool), VmError> {
    match decode_at(prog, s.cpu.pc) {
        Err(e) => Err(e),
        Ok(instr) => match cpu_step(s.cpu, s.mem, s.stk, cap, instr) {
            Err(e) => Err(e),
            Ok(step) => match step.3 {
                PcTransition::Halt => Ok(
                    (VmState { cpu: step.0, mem: step.1, stk: step.2 }, true),
                ),
                PcTransition::Advance => Ok(
                    (
                        VmState {
                            cpu: CpuView {
                                regs: step.0.regs,
                                flags: step.0.flags,
                                pc: (s.cpu.pc + instr.size_spec()) as nat,
                            },
                            mem: step.1,
                            stk: step.2,
                        },
                        false,
                    ),
                ),
                PcTransition::JumpTo(address) => Ok(
                    (
                        VmState {
                            cpu: CpuView {
                                regs: step.0.regs,
                                flags: step.0.flags,
                                pc: address as nat,
                            },
                            mem: step.1,
                            stk: step.2,
                        },
                        false,
                    ),
                ),
            },
        },
    }
}

/// Where a run stands after a number of steps: still running, halted, or
/// faulted with an error in the state it had reached.
pub ghost enum RunState {
    Running(VmState),
    Halted(VmState),
    Faulted(VmState, VmError),
}

/// The state of a run of `prog`, from initial state `s0` with stack bound
/// `cap`, after `n` steps of [`vm_step`].  Halting and faulting are
/// absorbing: once the run has ended, further steps change nothing.
pub open spec fn run_n(prog: Seq<u8>, cap: nat, s0: VmState, n: nat) -> RunState
    decreases n,
{
    if n == 0 {
        RunState::Running(s0)
    } else {
        match run_n(prog, cap, s0, (n - 1) as nat) {
            RunState::Running(s) => match vm_step(prog, cap, s) {
                Err(e) => RunState::Faulted(s, e),
                Ok(step) => if step.1 {
                    RunState::Halted(step.0)
                } else {
                    RunState::Running(step.0)
                },
            },
            done => done,
        }
    }
}

/// A run that has halted or faulted stays halted or faulted: later step
/// counts see the same ended state.  A caller that knows its program ends
/// within some step count can conclude [`halts_or_faults`] from this.
pub proof fn lemma_run_absorbing(prog: Seq<u8>, cap: nat, s0: VmState, m: nat, n: nat)
    requires
        m <= n,
        !(run_n(prog, cap, s0, m) is Running),
    ensures
        run_n(prog, cap, s0, n) == run_n(prog, cap, s0, m),
    decreases n,
{
    if n > m {
        lemma_run_absorbing(prog, cap, s0, m, (n - 1) as nat);
    }
}

/// The run of `prog` on a machine with the given stack bound and memory
/// size halts or faults within `u128::MAX` steps.  Every run that can
/// finish in practice does so well within this budget; only a run this
/// long could exhaust the step counter, which then could not report a
/// faithful count.
pub open spec fn halts_or_faults(prog: Seq<u8>, cap: nat, memory_size: nat) -> bool {
    !(run_n(prog, cap, init_vm_state(memory_size), u128::MAX as nat) is Running)
}

/// A virtual machine: CPU, memory, stack and a step counter, constructed
/// once and reset at the start of every run.
pub struct VM {
    stack: Stack<i32>,
    memory: Memory,
    cpu: CPU,
    steps: u128,
}

impl VM {
    /// The machine's mathematical state: CPU, memory and stack.
    pub closed spec fn spec_state(&self) -> VmState {
        VmState { cpu: self.cpu@, mem: self.memory@, stk: self.stack@ }
    }

    /// The stack capacity the machine was constructed with.
    pub closed spec fn stack_cap(&self) -> nat {
        self.stack.cap()
    }

    /// The current value of the step counter.
    pub closed spec fn spec_steps(&self) -> u128 {
        self.steps
    }

    /// The register file is complete and the stack within its bound.
    pub closed spec fn wf(&self) -> bool {
        self.cpu.wf() && self.stack.wf()
    }

    /// Creates a machine with the given stack capacity and memory size, in
    /// the reset state.
    pub fn new(stack_capacity: usize, memory_size: usize) -> (vm: VM)
        ensures
            vm.wf(),
            vm.stack_cap() == stack_capacity,
            vm.spec_state() == init_vm_state(memory_size as nat),
            vm.spec_state().mem.len() == memory_size,
            vm.spec_steps() == 0,
    {
        let vm = VM {
            stack: Stack::new(stack_capacity),
            memory: Memory::new(memory_size),
            cpu: CPU::new(),
            steps: 0,
        };
        proof {
            assert(vm.spec_state() == init_vm_state(memory_size as nat));
        }
        vm
    }

    /// The machine's stack.
    pub fn stack(&self) -> (s: &Stack<i32>)
        ensures
            s@ == self.spec_state().stk,
            s.cap() == self.stack_cap(),
    {
        &self.stack
    }

    /// The machine's memory.
    pub fn memory(&self) -> (m: &Memory)
        ensures
            m@ == self.spec_state().mem,
    {
        &self.memory
    }

    /// The machine's CPU.
    pub fn cpu(&self) -> (c: &CPU)
        ensures
            c@ == self.spec_state().cpu,
            self.wf() ==> c.wf(),
    {
        &self.cpu
    }

    /// Runs a program to completion: resets the CPU, memory, stack and step
    /// counter, then decodes and executes instruction by instruction until
    /// the halt opcode or the first error.
    ///
    /// On success the result is the exact number of instructions fetched,
    /// the halting one included, and the machine holds the halt state of the
    /// semantics; on failure the error is the one the semantics faults with,
    /// unmodified, and the machine retains the state it had reached.
    #[verifier::rlimit(50)]
    pub fn run(&mut self, program: &[u8]) -> (r: Result<u128, VmError>)
        requires
            old(self).wf(),
            halts_or_faults(
                program@,
                old(self).stack_cap(),
                old(self).spec_state().mem.len(),
            ),
        ensures
            final(self).wf(),
            final(self).stack_cap() == old(self).stack_cap(),
            final(self).spec_state().mem.len() == old(self).spec_state().mem.len(),
            ({
                let s0 = init_vm_state(old(self).spec_state().mem.len());
                let cap = old(self).stack_cap();
                match r {
                    Ok(count) => {
                        &&& count >= 1
                        &&& run_n(program@, cap, s0, (count - 1) as nat) is Running
                        &&& run_n(program@, cap, s0, count as nat) matches RunState::Halted(s)
                            && final(self).spec_state() == s
                        &&& final(self).spec_steps() == count
                    },
                    Err(e) => exists|n: nat|
                        #![trigger run_n(program@, cap, s0, n)]
                        {
                            &&& n >= 1
                            &&& run_n(program@, cap, s0, (n - 1) as nat) is Running
                            &&& run_n(program@, cap, s0, n) matches RunState::Faulted(s, e2)
                                && e2 == e && final(self).spec_state() == s
                        },
                }
            }),
    {
        self.steps = 0;
        self.cpu.init();
        self.memory.clear();
        self.stack.clear();
        let program = Program::new(program);
        // Binding the length to a usize lets the verifier see that an
        // advanced program counter stays within the usize range.
        let _program_size = program.size();
        let decoder = Decoder::new();
        let ghost prog = program@;
        let ghost cap = self.stack_cap();
        let ghost s0 = init_vm_state(old(self).spec_state().mem.len());
        proof {
            assert(self.spec_state() == s0);
        }

        let mut halted = false;
        #[verifier::loop_isolation(false)]
        while !halted
            invariant
                self.wf(),
                self.stack_cap() == cap,
                self.spec_state().mem.len() == s0.mem.len(),
                !halted ==> run_n(prog, cap, s0, self.spec_steps() as nat) == RunState::Running(
                    self.spec_state(),
                ),
                halted ==> self.spec_steps() >= 1 && run_n(
                    prog,
                    cap,
                    s0,
                    (self.spec_steps() - 1) as nat,
                ) is Running && run_n(prog, cap, s0, self.spec_steps() as nat) == RunState::Halted(
                    self.spec_state(),
                ),
            decreases u128::MAX - self.steps,
        {
            let ghost before = self.spec_state();
            let pc = self.cpu.pc();
            let instruction = match decoder.decode_next_instruction(&program, pc) {
                Ok(instruction) => instruction,
                Err(e) => {
                    proof {
                        let n = (self.spec_steps() + 1) as nat;
                        assert(vm_step(prog, cap, before) == Err::<(VmState, bool), VmError>(e));
                        assert(run_n(prog, cap, s0, n) == RunState::Faulted(before, e));
                    }
                    return Err(e);
                },
            };
            proof {
                // The step counter cannot be exhausted: the run would still
                // be running at the step budget, against the precondition.
                if self.steps == u128::MAX {
                    assert(run_n(prog, cap, s0, u128::MAX as nat) is Running);
                    assert(false);
                }
            }
            self.steps = self.steps + 1;
            let transition = match self.cpu.execute_instruction(
                instruction,
                &mut self.memory,
                &mut self.stack,
            ) {
                Ok(transition) => transition,
                Err(e) => {
                    proof {
                        let n = self.spec_steps() as nat;
                        assert(vm_step(prog, cap, before) == Err::<(VmState, bool), VmError>(e));
                        assert(run_n(prog, cap, s0, n) == RunState::Faulted(before, e));
                    }
                    return Err(e);
                },
            };
            match transition {
                PcTransition::Halt => {
                    halted = true;
                    proof {
                        let n = self.spec_steps() as nat;
                        assert(run_n(prog, cap, s0, n) == RunState::Halted(self.spec_state()));
                    }
                },
                PcTransition::Advance => {
                    let size = instruction.size();
                    self.cpu.advance_pc(size);
                    proof {
                        let n = self.spec_steps() as nat;
                        assert(run_n(prog, cap, s0, n) == RunState::Running(self.spec_state()));
                    }
                },
                PcTransition::JumpTo(address) => {
                    self.cpu.jump_to(address);
                    proof {
                        let n = self.spec_steps() as nat;
                        assert(run_n(prog, cap, s0, n) == RunState::Running(self.spec_state()));
                    }
                },
            }
        }
        Ok(self.steps)
    }
}

} // verus!
