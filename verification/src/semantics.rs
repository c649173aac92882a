//! Per-instruction semantics: what one decoded instruction does to the
//! machine.
//!
//! [`spec_execute`] is the specification: from an instruction, the program
//! counter, the register file and the memory it yields the next program
//! counter, the register writeback (index and value) and the new memory, or
//! the fatal error. All arithmetic is 32-bit wrapping; signed readings are
//! two's complement.

use vstd::prelude::*;

use crate::errors::VmError;
use crate::instructions::{ArithOp, Comparison, Instruction, LoadStoreWidth};
use crate::logs::Log;
use crate::machine::{Memory, Registers};

verus! {

/// How far the program counter advances past a straight-line instruction.
pub const REGULAR_PC_UPDATE: u32 = 4;

/// The signed value of a word, read as two's complement.
pub open spec fn to_signed(x: u32) -> int {
    if x >= 0x8000_0000 {
        x - 0x1_0000_0000
    } else {
        x as int
    }
}

/// The word whose two's-complement reading is the given signed value.
pub open spec fn word_of_i32(a: i32) -> u32 {
    if a < 0 {
        (a + 0x1_0000_0000) as u32
    } else {
        a as u32
    }
}

/// Reads a word as a signed integer.
pub fn word_to_i32(x: u32) -> (r: i32)
    ensures
        r as int == to_signed(x),
{
    if x < 0x8000_0000 {
        x as i32
    } else {
        ((x as i64) - 0x1_0000_0000) as i32
    }
}

/// The two's-complement word of a signed integer.
pub fn i32_to_word(a: i32) -> (r: u32)
    ensures
        r == word_of_i32(a),
{
    if a >= 0 {
        a as u32
    } else {
        ((a as i64) + 0x1_0000_0000) as u32
    }
}

/// Arithmetic (sign-filling) right shift of a word, for a shift amount below
/// 32.
pub open spec fn spec_shift_right_arith(a: u32, sh: u32) -> u32 {
    if a >= 0x8000_0000 {
        !((!a) >> sh)
    } else {
        a >> sh
    }
}

impl ArithOp {
    /// The value of the operation on two words.
    ///
    /// Addition and subtraction wrap; the shift amount is the low five bits
    /// of the right operand; the set-less-than operations yield 0 or 1.
    pub open spec fn spec_apply(self, a: u32, b: u32) -> u32 {
        match self {
            ArithOp::Add => a.wrapping_add(b),
            ArithOp::Sub => a.wrapping_sub(b),
            ArithOp::Xor => a ^ b,
            ArithOp::Or => a | b,
            ArithOp::And => a & b,
            ArithOp::ShiftLeftLogical => a << (b % 32),
            ArithOp::ShiftRightLogical => a >> (b % 32),
            ArithOp::ShiftRightArith => spec_shift_right_arith(a, b % 32),
            ArithOp::SetLessThan => if to_signed(a) < to_signed(b) {
                1
            } else {
                0
            },
            ArithOp::SetLessThanU => if a < b {
                1
            } else {
                0
            },
        }
    }

    /// Applies the operation to two words.
    pub fn apply_to_words(self, a: u32, b: u32) -> (r: u32)
        ensures
            r == self.spec_apply(a, b),
    {
        match self {
            ArithOp::Add => a.wrapping_add(b),
            ArithOp::Sub => a.wrapping_sub(b),
            ArithOp::Xor => a ^ b,
            ArithOp::Or => a | b,
            ArithOp::And => a & b,
            ArithOp::ShiftLeftLogical => a << (b % 32),
            ArithOp::ShiftRightLogical => a >> (b % 32),
            ArithOp::ShiftRightArith => {
                let sh = b % 32;
                if a >= 0x8000_0000 {
                    !((!a) >> sh)
                } else {
                    a >> sh
                }
            },
            ArithOp::SetLessThan => if word_to_i32(a) < word_to_i32(b) {
                1
            } else {
                0
            },
            ArithOp::SetLessThanU => if a < b {
                1
            } else {
                0
            },
        }
    }

    /// Applies the operation to two signed values, as the arithmetic
    /// instructions read their operands.
    pub fn apply(&self, a: i32, b: i32) -> (r: i32)
        ensures
            r as int == to_signed(self.spec_apply(word_of_i32(a), word_of_i32(b))),
    {
        word_to_i32(self.apply_to_words(i32_to_word(a), i32_to_word(b)))
    }
}

/// Whether the branch comparison holds of the two source values.
pub open spec fn spec_branch_taken(cond: Comparison, a: u32, b: u32) -> bool {
    match cond {
        Comparison::Equal => a == b,
        Comparison::NotEqual => a != b,
        Comparison::LessThan => to_signed(a) < to_signed(b),
        Comparison::GreaterOrEqual => to_signed(a) >= to_signed(b),
        Comparison::LessThanUnsigned => a < b,
        Comparison::GreaterOrEqualUnsigned => a >= b,
    }
}

fn branch_taken(cond: Comparison, a: u32, b: u32) -> (r: bool)
    ensures
        r == spec_branch_taken(cond, a, b),
{
    match cond {
        Comparison::Equal => a == b,
        Comparison::NotEqual => a != b,
        Comparison::LessThan => word_to_i32(a) < word_to_i32(b),
        Comparison::GreaterOrEqual => word_to_i32(a) >= word_to_i32(b),
        Comparison::LessThanUnsigned => a < b,
        Comparison::GreaterOrEqualUnsigned => a >= b,
    }
}

/// What executing one instruction yields: the next program counter, the
/// register writeback index (0 for none) and value, and the memory after the
/// step; or the fatal error.
pub open spec fn spec_execute(i: Instruction, pc: u32, regs: Seq<u32>, mem: Map<u32, u32>) -> Result<
    (u32, u32, u32, Map<u32, u32>),
    VmError,
> {
    match i {
        Instruction::ArithImm { dst, src, imm, op } => {
            if op is Sub {
                // RISC-V has no subtract-immediate encoding.
                Err(VmError::InvalidInstruction)
            } else {
                Ok(
                    (
                        pc.wrapping_add(REGULAR_PC_UPDATE),
                        dst,
                        op.spec_apply(regs[src as int], word_of_i32(imm)),
                        mem,
                    ),
                )
            }
        },
        Instruction::JumpAndLinkRegister { base, dst, offset } => Ok(
            (
                regs[base as int].wrapping_add_signed(offset),
                dst,
                pc.wrapping_add(REGULAR_PC_UPDATE),
                mem,
            ),
        ),
        Instruction::JumpAndLink { dst, offset } => Ok(
            (pc.wrapping_add_signed(offset), dst, pc.wrapping_add(REGULAR_PC_UPDATE), mem),
        ),
        Instruction::Store { src, offset, base, width } => {
            if !(width is Word) {
                Err(VmError::UnimplementedWidth)
            } else {
                Ok(
                    (
                        pc.wrapping_add(REGULAR_PC_UPDATE),
                        0,
                        0,
                        mem.insert(regs[base as int].wrapping_add(offset), regs[src as int]),
                    ),
                )
            }
        },
        Instruction::Load { dst, offset, base, width } => {
            if !(width is Word) {
                Err(VmError::UnimplementedWidth)
            } else {
                let addr = regs[base as int].wrapping_add_signed(offset);
                if mem.contains_key(addr) {
                    Ok((pc.wrapping_add(REGULAR_PC_UPDATE), dst, mem[addr], mem))
                } else {
                    Err(VmError::UnmappedMemoryRead)
                }
            }
        },
        Instruction::Branch { src1, src2, cond, offset } => {
            let new_pc = if spec_branch_taken(cond, regs[src1 as int], regs[src2 as int]) {
                pc.wrapping_add_signed(offset)
            } else {
                pc.wrapping_add(REGULAR_PC_UPDATE)
            };
            Ok((new_pc, 0, 0, mem))
        },
        Instruction::LoadUpperImm { dst, imm } => Ok(
            (pc.wrapping_add(REGULAR_PC_UPDATE), dst, imm, mem),
        ),
        Instruction::AddUpperImmToPc { dst, imm } => Ok(
            (pc.wrapping_add(REGULAR_PC_UPDATE), dst, pc.wrapping_add(imm), mem),
        ),
        Instruction::Arith { dst, src1, src2, op } => Ok(
            (
                pc.wrapping_add(REGULAR_PC_UPDATE),
                dst,
                op.spec_apply(regs[src1 as int], regs[src2 as int]),
                mem,
            ),
        ),
    }
}

impl Instruction {
    /// Executes the instruction: yields the new program counter, the register
    /// to update (0 for none) and its new value, writing memory in place.
    ///
    /// On an error nothing changes.
    pub fn execute(&self, pc: u32, registers: &Registers, memory: &mut Memory) -> (r: Result<
        (u32, u32, u32),
        VmError,
    >)
        requires
            self.regs_in_range(),
        ensures
            match r {
                Ok(t) => spec_execute(*self, pc, registers@, old(memory)@) == Ok::<
                    (u32, u32, u32, Map<u32, u32>),
                    VmError,
                >((t.0, t.1, t.2, final(memory)@)) && t.1 < 32,
                Err(e) => spec_execute(*self, pc, registers@, old(memory)@) == Err::<
                    (u32, u32, u32, Map<u32, u32>),
                    VmError,
                >(e) && final(memory)@ == old(memory)@,
            },
    {
        match self {
            Instruction::ArithImm { dst, src, imm, op } => {
                if matches!(op, ArithOp::Sub) {
                    return Err(VmError::InvalidInstruction);
                }
                let op1 = registers.read(*src);
                let res = op.apply_to_words(op1, i32_to_word(*imm));
                Ok((pc.wrapping_add(REGULAR_PC_UPDATE), *dst, res))
            },
            Instruction::JumpAndLinkRegister { base, dst, offset } => {
                let new_pc = registers.read(*base).wrapping_add_signed(*offset);
                Ok((new_pc, *dst, pc.wrapping_add(REGULAR_PC_UPDATE)))
            },
            Instruction::JumpAndLink { dst, offset } => Ok(
                (pc.wrapping_add_signed(*offset), *dst, pc.wrapping_add(REGULAR_PC_UPDATE)),
            ),
            Instruction::Store { src, offset, base, width } => {
                let value = registers.read(*src);
                match width {
                    LoadStoreWidth::Byte => Err(VmError::UnimplementedWidth),
                    LoadStoreWidth::Half => Err(VmError::UnimplementedWidth),
                    LoadStoreWidth::Word => {
                        let addr = registers.read(*base).wrapping_add(*offset);
                        memory.write(addr, value);
                        Ok((pc.wrapping_add(REGULAR_PC_UPDATE), 0, 0))
                    },
                }
            },
            Instruction::Load { dst, offset, base, width } => {
                match width {
                    LoadStoreWidth::Byte => Err(VmError::UnimplementedWidth),
                    LoadStoreWidth::Half => Err(VmError::UnimplementedWidth),
                    LoadStoreWidth::Word => {
                        let addr = registers.read(*base).wrapping_add_signed(*offset);
                        let value = match memory.read(addr) {
                            Ok(w) => w,
                            Err(e) => {
                                return Err(e);
                            },
                        };
                        Ok((pc.wrapping_add(REGULAR_PC_UPDATE), *dst, value))
                    },
                }
            },
            Instruction::Branch { src1, src2, cond, offset } => {
                let a = registers.read(*src1);
                let b = registers.read(*src2);
                let new_pc = if branch_taken(*cond, a, b) {
                    pc.wrapping_add_signed(*offset)
                } else {
                    pc.wrapping_add(REGULAR_PC_UPDATE)
                };
                Ok((new_pc, 0, 0))
            },
            Instruction::LoadUpperImm { dst, imm } => Ok(
                (pc.wrapping_add(REGULAR_PC_UPDATE), *dst, *imm),
            ),
            Instruction::AddUpperImmToPc { dst, imm } => Ok(
                (pc.wrapping_add(REGULAR_PC_UPDATE), *dst, pc.wrapping_add(*imm)),
            ),
            Instruction::Arith { dst, src1, src2, op } => {
                let a = registers.read(*src1);
                let b = registers.read(*src2);
                let res = op.apply_to_words(a, b);
                Ok((pc.wrapping_add(REGULAR_PC_UPDATE), *dst, res))
            },
        }
    }

    /// Runs the instruction: executes it, assigns the new program counter and
    /// performs the register writeback, and returns the execution log entry.
    ///
    /// On an error nothing changes.
    pub fn run(self, pc: &mut u32, registers: &mut Registers, memory: &mut Memory) -> (r: Result<
        Log,
        VmError,
    >)
        requires
            self.regs_in_range(),
        ensures
            ({
                let se = spec_execute(self, *old(pc), old(registers)@, old(memory)@);
                match r {
                    Ok(log) => se matches Ok(t) && {
                        &&& *final(pc) == t.0
                        &&& final(registers)@ == if t.1 == 0 {
                            old(registers)@
                        } else {
                            old(registers)@.update(t.1 as int, t.2)
                        }
                        &&& final(memory)@ == t.3
                        &&& log == Log { instruction: self, updated_register_value: t.2 }
                    },
                    Err(e) => se == Err::<(u32, u32, u32, Map<u32, u32>), VmError>(e) && *final(pc)
                        == *old(pc) && final(registers)@ == old(registers)@ && final(memory)@
                        == old(memory)@,
                }
            }),
    {
        let (new_pc, updated_register, new_register_value) = match self.execute(
            *pc,
            registers,
            memory,
        ) {
            Ok(t) => t,
            Err(e) => {
                return Err(e);
            },
        };
        *pc = new_pc;
        registers.write(updated_register, new_register_value);
        Ok(Log { instruction: self, updated_register_value: new_register_value })
    }
}

} // verus!
