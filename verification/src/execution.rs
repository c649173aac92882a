//! The fetch-decode-execute loop.
//!
//! [`spec_step`] is one machine step on a specification-level state;
//! [`spec_run_n`] iterates it. [`run_program`]'s contract ties the run to
//! that specification: on success some number of steps reaches a state whose
//! program counter is zero (the halt condition), and the returned values and
//! log are that state's.

use std::collections::BTreeMap;

use vstd::prelude::*;

use crate::errors::VmError;
use crate::instructions::{lemma_decode_regs_in_range, spec_decode, Instruction};
use crate::logs::Log;
use crate::machine::{Memory, Registers};
use crate::semantics::{spec_execute, to_signed, word_to_i32};

verus! {

/// The initial stack pointer: the conventional top-of-memory sentinel.
pub const INITIAL_STACK_POINTER: u32 = 0xFFFFFFFF;

/// A machine state at the specification level, with the log of the executed
/// instructions.
pub struct SpecState {
    pub pc: u32,
    pub regs: Seq<u32>,
    pub mem: Map<u32, u32>,
    pub logs: Seq<Log>,
}

impl SpecState {
    /// A register file of the right size whose register 0 is zero.
    pub open spec fn wf(self) -> bool {
        self.regs.len() == 32 && self.regs[0] == 0
    }
}

/// The state a program starts in: the given entry point, register 2 (the
/// stack pointer) at the sentinel, every other register zero — in particular
/// register 1, the return address, so that returning through it halts the
/// machine — and the loaded image as memory.
pub open spec fn spec_init_state(image: Map<u32, u32>, entrypoint: u32) -> SpecState {
    SpecState {
        pc: entrypoint,
        regs: Seq::new(
            32,
            |i: int|
                if i == 2 {
                    INITIAL_STACK_POINTER
                } else {
                    0u32
                },
        ),
        mem: image,
        logs: Seq::empty(),
    }
}

/// One fetch-decode-execute step from a state whose program counter is not
/// zero.
pub open spec fn spec_step(s: SpecState) -> Result<SpecState, VmError> {
    if !s.mem.contains_key(s.pc) {
        Err(VmError::UnmappedMemoryRead)
    } else {
        match spec_decode(s.mem[s.pc]) {
            None => Err(VmError::InvalidInstruction),
            Some(i) => match spec_execute(i, s.pc, s.regs, s.mem) {
                Err(e) => Err(e),
                Ok(t) => Ok(
                    SpecState {
                        pc: t.0,
                        regs: if t.1 == 0 {
                            s.regs
                        } else {
                            s.regs.update(t.1 as int, t.2)
                        },
                        mem: t.3,
                        logs: s.logs.push(
                            Log { instruction: i, updated_register_value: t.2 },
                        ),
                    },
                ),
            },
        }
    }
}

/// `n` machine steps, stopping early at a state whose program counter is
/// zero; the first failing step's error, where one fails.
pub open spec fn spec_run_n(s: SpecState, n: nat) -> Result<SpecState, VmError>
    decreases n,
{
    if n == 0 {
        Ok(s)
    } else {
        match spec_run_n(s, (n - 1) as nat) {
            Ok(t) => if t.pc != 0 {
                spec_step(t)
            } else {
                Ok(t)
            },
            Err(e) => Err(e),
        }
    }
}

/// Register 0 is zero after every instruction: one step never writes it and
/// keeps the register file's size.
pub proof fn lemma_step_preserves_zero_register(s: SpecState)
    requires
        s.wf(),
    ensures
        spec_step(s) matches Ok(t) ==> t.wf(),
{
    if s.mem.contains_key(s.pc) {
        lemma_decode_regs_in_range(s.mem[s.pc]);
    }
}

/// Register 0 is zero after every instruction of a run: every state that any
/// number of steps reaches from a well-formed state is well-formed.
pub proof fn lemma_run_preserves_zero_register(s: SpecState, n: nat)
    requires
        s.wf(),
    ensures
        spec_run_n(s, n) matches Ok(t) ==> t.wf(),
    decreases n,
{
    if n > 0 {
        lemma_run_preserves_zero_register(s, (n - 1) as nat);
        if spec_run_n(s, (n - 1) as nat) is Ok {
            let t = spec_run_n(s, (n - 1) as nat)->Ok_0;
            if t.pc != 0 {
                lemma_step_preserves_zero_register(t);
            }
        }
    }
}

/// Loads a program image, placing each of its words at its address.
fn load_program(instruction_map: BTreeMap<u32, u32>, memory: &mut Memory)
    requires
        old(memory)@ == Map::<u32, u32>::empty(),
    ensures
        final(memory)@ == instruction_map@,
{
    memory.0 = instruction_map;
}

/// Runs a loaded program from its entry point until the program counter
/// reaches zero, returning the final values of the two return-value
/// registers (a0, a1) and the execution log.
///
/// On success, some number of machine steps from the initial state reaches a
/// halted state (program counter zero) whose registers 10 and 11, signed, are
/// the returned values and whose log is the returned log. On an error, some
/// number of steps reaches exactly that error.
pub fn run_program(instruction_map: BTreeMap<u32, u32>, entrypoint: u32) -> (r: Result<
    ((i32, i32), Vec<Log>),
    VmError,
>)
    ensures
        ({
            let init = spec_init_state(instruction_map@, entrypoint);
            match r {
                Ok(rv) => exists|n: nat|
                    {
                        &&& #[trigger] spec_run_n(init, n) matches Ok(f)
                        &&& f.pc == 0
                        &&& rv.0.0 as int == to_signed(f.regs[10])
                        &&& rv.0.1 as int == to_signed(f.regs[11])
                        &&& rv.1@ == f.logs
                    },
                Err(e) => (exists|n: nat|
                    #[trigger] spec_run_n(init, n) == Err::<SpecState, VmError>(e)) || (e
                    == VmError::StepLimitExceeded && (spec_run_n(init, u64::MAX as nat) matches Ok(
                    f) && f.pc != 0)),
            }
        }),
{
    let mut memory = Memory::default();
    load_program(instruction_map, &mut memory);
    run_from_entrypoint(&mut memory, entrypoint)
}

/// The loop of [`run_program`], on an already-loaded memory.
///
/// The machine halts at program counter zero or on a fatal error. A budget of
/// `u64::MAX` steps bounds the loop; a program still running after that many
/// steps is reported as [`VmError::StepLimitExceeded`].
#[verifier::loop_isolation(false)]
fn run_from_entrypoint(memory: &mut Memory, entrypoint: u32) -> (r: Result<
    ((i32, i32), Vec<Log>),
    VmError,
>)
    ensures
        ({
            let init = spec_init_state(old(memory)@, entrypoint);
            match r {
                Ok(rv) => exists|n: nat|
                    {
                        &&& #[trigger] spec_run_n(init, n) matches Ok(f)
                        &&& f.pc == 0
                        &&& rv.0.0 as int == to_signed(f.regs[10])
                        &&& rv.0.1 as int == to_signed(f.regs[11])
                        &&& rv.1@ == f.logs
                    },
                Err(e) => (exists|n: nat|
                    #[trigger] spec_run_n(init, n) == Err::<SpecState, VmError>(e)) || (e
                    == VmError::StepLimitExceeded && (spec_run_n(init, u64::MAX as nat) matches Ok(
                    f) && f.pc != 0)),
            }
        }),
{
    let ghost init = spec_init_state(memory@, entrypoint);
    let mut pc = entrypoint;
    let mut registers = Registers::default();
    registers.write(2, INITIAL_STACK_POINTER);
    let mut logs: Vec<Log> = Vec::new();
    proof {
        assert(registers@ =~= init.regs);
        assert(logs@ =~= init.logs);
    }
    let mut fuel: u64 = u64::MAX;
    let ghost mut steps: nat = 0;
    while pc != 0 && fuel > 0
        invariant
            steps == u64::MAX - fuel,
            spec_run_n(init, steps) == Ok::<SpecState, VmError>(
                SpecState { pc: pc, regs: registers@, mem: memory@, logs: logs@ },
            ),
        decreases fuel,
    {
        fuel = fuel - 1;
        let ghost prev = SpecState { pc: pc, regs: registers@, mem: memory@, logs: logs@ };
        let word = match memory.read(pc) {
            Ok(w) => w,
            Err(e) => {
                proof {
                    assert(spec_run_n(init, steps + 1) == Err::<SpecState, VmError>(e));
                }
                return Err(e);
            },
        };
        let instruction = match Instruction::parse(word) {
            Ok(i) => i,
            Err(e) => {
                proof {
                    assert(spec_run_n(init, steps + 1) == Err::<SpecState, VmError>(e));
                }
                return Err(e);
            },
        };
        proof {
            lemma_decode_regs_in_range(word);
        }
        let log = match instruction.run(&mut pc, &mut registers, memory) {
            Ok(l) => l,
            Err(e) => {
                proof {
                    assert(spec_run_n(init, steps + 1) == Err::<SpecState, VmError>(e));
                }
                return Err(e);
            },
        };
        logs.push(log);
        proof {
            assert(spec_step(prev) == Ok::<SpecState, VmError>(
                SpecState { pc: pc, regs: registers@, mem: memory@, logs: logs@ },
            ));
            steps = steps + 1;
        }
    }
    if pc != 0 {
        return Err(VmError::StepLimitExceeded);
    }
    let return_values = (word_to_i32(registers.read(10)), word_to_i32(registers.read(11)));
    Ok((return_values, logs))
}

} // verus!
