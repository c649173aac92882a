//! The RV32I instruction model and the bit-exact decoder.
//!
//! [`spec_decode`] is the specification of the decoder: it maps a 32-bit word
//! to the instruction it encodes, or to `None` when the word is not a
//! recognized encoding. [`Instruction::parse`] is the executable decoder,
//! proved to agree with `spec_decode` on every word.

use vstd::prelude::*;

use crate::errors::VmError;

verus! {

// Opcodes (low 7 bits of every encoding).
pub const ARITH_OPCODE: u32 = 0b0110011;
pub const ARITH_IMM_OPCODE: u32 = 0b0010011;
pub const LOAD_OPCODE: u32 = 0b0000011;
pub const STORE_OPCODE: u32 = 0b0100011;
pub const BRANCH_OPCODE: u32 = 0b1100011;
pub const JUMP_AND_LINK_REGISTER_OPCODE: u32 = 0b1100111;
pub const JUMP_AND_LINK_OPCODE: u32 = 0b1101111;
pub const LOAD_UPPER_IMM_OPCODE: u32 = 0b0110111;
pub const ADD_UPPER_IMM_TO_PC: u32 = 0b0010111;

#[derive(Clone, Copy, Debug, PartialEq, Eq, Structural)]
enum Opcode {
    Arith,
    ArithImm,
    Load,
    Store,
    Branch,
    JumpAndLinkRegister,
    JumpAndLink,
    LoadUpperImm,
    AddUpperImmToPc,
}

#[derive(Clone, Copy, Debug, PartialEq, Eq, Structural)]
enum InstructionFormat {
    R,
    I,
    S,
    B,
    U,
    J,
}

/// The operations shared by the register-register and register-immediate
/// arithmetic instructions.
#[derive(Clone, Copy, Debug, PartialEq, Eq, Structural)]
pub enum ArithOp {
    Add,
    Sub,
    Xor,
    Or,
    And,
    ShiftLeftLogical,
    ShiftRightLogical,
    ShiftRightArith,
    SetLessThan,
    SetLessThanU,
}

/// The access width of a load or store.
#[derive(Clone, Copy, Debug, PartialEq, Eq, Structural)]
pub enum LoadStoreWidth {
    Byte,
    Half,
    Word,
}

/// The comparison a branch instruction applies to its two source registers.
#[derive(Clone, Copy, Debug, PartialEq, Eq, Structural)]
pub enum Comparison {
    Equal,
    NotEqual,
    LessThan,
    GreaterOrEqual,
    LessThanUnsigned,
    GreaterOrEqualUnsigned,
}

/// A decoded RV32I instruction.
///
/// Register indices are 5-bit (0..31). Immediates are sign-extended to 32
/// bits at decode time where the ISA requires it; shift amounts in `ArithImm`
/// are already normalized to the range 0..31.
#[derive(Clone, Copy, Debug, PartialEq, Eq, Structural)]
pub enum Instruction {
    Arith { dst: u32, src1: u32, src2: u32, op: ArithOp },
    ArithImm { dst: u32, src: u32, imm: i32, op: ArithOp },
    JumpAndLink { dst: u32, offset: i32 },
    JumpAndLinkRegister { base: u32, dst: u32, offset: i32 },
    Store { src: u32, offset: u32, base: u32, width: LoadStoreWidth },
    Load { dst: u32, offset: i32, base: u32, width: LoadStoreWidth },
    Branch { src1: u32, src2: u32, cond: Comparison, offset: i32 },
    LoadUpperImm { dst: u32, imm: u32 },
    AddUpperImmToPc { dst: u32, imm: u32 },
}

// Field extraction, common to all formats.
pub open spec fn opcode_of(w: u32) -> u32 {
    w & 0x7f
}

pub open spec fn funct3_of(w: u32) -> u32 {
    (w >> 12) & 0x7
}

pub open spec fn funct7_of(w: u32) -> u32 {
    (w >> 25) & 0x7f
}

pub open spec fn rs1_of(w: u32) -> u32 {
    (w >> 15) & 0x1f
}

pub open spec fn rs2_of(w: u32) -> u32 {
    (w >> 20) & 0x1f
}

pub open spec fn rd_of(w: u32) -> u32 {
    (w >> 7) & 0x1f
}

/// I-format immediate: bits 31..20, sign-extended from bit 31.
pub open spec fn imm_i_of(w: u32) -> i32 {
    let bits = (w >> 20) & 0xfff;
    if w >> 31 == 1 {
        (bits - 4096) as i32
    } else {
        bits as i32
    }
}

/// S-format immediate: bits 31..25 over bits 11..7, sign-extended from bit
/// 31, as the two's-complement 32-bit pattern.
pub open spec fn imm_s_of(w: u32) -> u32 {
    let bits = (funct7_of(w) << 5) | rd_of(w);
    if w >> 31 == 1 {
        bits | 0xfffff000
    } else {
        bits
    }
}

/// B-format immediate: a byte offset, always even, sign-extended from bit 31.
pub open spec fn imm_b_of(w: u32) -> i32 {
    let bits = ((w >> 20) & 0x7e0) | ((w >> 7) & 0x1e) | ((w & 0x80) << 4);
    if w >> 31 == 1 {
        (bits - 4096) as i32
    } else {
        bits as i32
    }
}

/// J-format immediate: a byte offset, always even, sign-extended from bit 31.
pub open spec fn imm_j_of(w: u32) -> i32 {
    let bits = (w & 0xff000) | ((w & 0x100000) >> 9) | ((w >> 20) & 0x7fe);
    if w >> 31 == 1 {
        (bits - 1048576) as i32
    } else {
        bits as i32
    }
}

/// U-format immediate: bits 31..12 in place, zero elsewhere.
pub open spec fn imm_u_of(w: u32) -> u32 {
    w & 0xfffff000
}

/// The R-format arithmetic operation selected by `(funct3, funct7)`.
pub open spec fn spec_arith_op_r(funct3: u32, funct7: u32) -> Option<ArithOp> {
    if funct3 == 0x0 && funct7 == 0x00 {
        Some(ArithOp::Add)
    } else if funct3 == 0x0 && funct7 == 0x20 {
        Some(ArithOp::Sub)
    } else if funct3 == 0x4 && funct7 == 0x00 {
        Some(ArithOp::Xor)
    } else if funct3 == 0x6 && funct7 == 0x00 {
        Some(ArithOp::Or)
    } else if funct3 == 0x7 && funct7 == 0x00 {
        Some(ArithOp::And)
    } else if funct3 == 0x1 && funct7 == 0x00 {
        Some(ArithOp::ShiftLeftLogical)
    } else if funct3 == 0x5 && funct7 == 0x00 {
        Some(ArithOp::ShiftRightLogical)
    } else if funct3 == 0x5 && funct7 == 0x20 {
        Some(ArithOp::ShiftRightArith)
    } else if funct3 == 0x2 && funct7 == 0x00 {
        Some(ArithOp::SetLessThan)
    } else if funct3 == 0x3 && funct7 == 0x00 {
        Some(ArithOp::SetLessThanU)
    } else {
        None
    }
}

pub open spec fn spec_decode_r(w: u32) -> Option<Instruction> {
    match spec_arith_op_r(funct3_of(w), funct7_of(w)) {
        Some(op) => Some(
            Instruction::Arith { dst: rd_of(w), src1: rs1_of(w), src2: rs2_of(w), op },
        ),
        None => None,
    }
}

pub open spec fn spec_decode_arith_imm(w: u32) -> Option<Instruction> {
    let f3 = funct3_of(w);
    let dst = rd_of(w);
    let src = rs1_of(w);
    if f3 == 0x0 {
        Some(Instruction::ArithImm { dst, src, imm: imm_i_of(w), op: ArithOp::Add })
    } else if f3 == 0x4 {
        Some(Instruction::ArithImm { dst, src, imm: imm_i_of(w), op: ArithOp::Xor })
    } else if f3 == 0x6 {
        Some(Instruction::ArithImm { dst, src, imm: imm_i_of(w), op: ArithOp::Or })
    } else if f3 == 0x7 {
        Some(Instruction::ArithImm { dst, src, imm: imm_i_of(w), op: ArithOp::And })
    } else if f3 == 0x2 {
        Some(Instruction::ArithImm { dst, src, imm: imm_i_of(w), op: ArithOp::SetLessThan })
    } else if f3 == 0x3 {
        Some(Instruction::ArithImm { dst, src, imm: imm_i_of(w), op: ArithOp::SetLessThanU })
    } else if f3 == 0x1 {
        // Shift-left immediate: the upper immediate bits must be zero; the
        // shift amount is the low five bits.
        if funct7_of(w) == 0x00 {
            Some(
                Instruction::ArithImm {
                    dst,
                    src,
                    imm: rs2_of(w) as i32,
                    op: ArithOp::ShiftLeftLogical,
                },
            )
        } else {
            None
        }
    } else if f3 == 0x5 {
        // Shift-right immediate: bit 30 selects logical against arithmetic.
        if funct7_of(w) == 0x00 {
            Some(
                Instruction::ArithImm {
                    dst,
                    src,
                    imm: rs2_of(w) as i32,
                    op: ArithOp::ShiftRightLogical,
                },
            )
        } else if funct7_of(w) == 0x20 {
            Some(
                Instruction::ArithImm {
                    dst,
                    src,
                    imm: rs2_of(w) as i32,
                    op: ArithOp::ShiftRightArith,
                },
            )
        } else {
            None
        }
    } else {
        None
    }
}

pub open spec fn spec_width_of(funct3: u32) -> Option<LoadStoreWidth> {
    if funct3 == 0x0 {
        Some(LoadStoreWidth::Byte)
    } else if funct3 == 0x1 {
        Some(LoadStoreWidth::Half)
    } else if funct3 == 0x2 {
        Some(LoadStoreWidth::Word)
    } else {
        None
    }
}

pub open spec fn spec_decode_load(w: u32) -> Option<Instruction> {
    match spec_width_of(funct3_of(w)) {
        Some(width) => Some(
            Instruction::Load { dst: rd_of(w), offset: imm_i_of(w), base: rs1_of(w), width },
        ),
        None => None,
    }
}

pub open spec fn spec_decode_jalr(w: u32) -> Option<Instruction> {
    if funct3_of(w) == 0x0 {
        Some(
            Instruction::JumpAndLinkRegister {
                base: rs1_of(w),
                dst: rd_of(w),
                offset: imm_i_of(w),
            },
        )
    } else {
        None
    }
}

pub open spec fn spec_decode_store(w: u32) -> Option<Instruction> {
    match spec_width_of(funct3_of(w)) {
        Some(width) => Some(
            Instruction::Store { src: rs2_of(w), offset: imm_s_of(w), base: rs1_of(w), width },
        ),
        None => None,
    }
}

pub open spec fn spec_branch_cond(funct3: u32) -> Option<Comparison> {
    if funct3 == 0x0 {
        Some(Comparison::Equal)
    } else if funct3 == 0x1 {
        Some(Comparison::NotEqual)
    } else if funct3 == 0x4 {
        Some(Comparison::LessThan)
    } else if funct3 == 0x5 {
        Some(Comparison::GreaterOrEqual)
    } else if funct3 == 0x6 {
        Some(Comparison::LessThanUnsigned)
    } else if funct3 == 0x7 {
        Some(Comparison::GreaterOrEqualUnsigned)
    } else {
        None
    }
}

pub open spec fn spec_decode_branch(w: u32) -> Option<Instruction> {
    match spec_branch_cond(funct3_of(w)) {
        Some(cond) => Some(
            Instruction::Branch { src1: rs1_of(w), src2: rs2_of(w), cond, offset: imm_b_of(w) },
        ),
        None => None,
    }
}

/// The instruction a 32-bit word encodes, or `None` when the word is not a
/// recognized RV32I encoding.
pub open spec fn spec_decode(w: u32) -> Option<Instruction> {
    let opcode = opcode_of(w);
    if opcode == ARITH_OPCODE {
        spec_decode_r(w)
    } else if opcode == ARITH_IMM_OPCODE {
        spec_decode_arith_imm(w)
    } else if opcode == LOAD_OPCODE {
        spec_decode_load(w)
    } else if opcode == JUMP_AND_LINK_REGISTER_OPCODE {
        spec_decode_jalr(w)
    } else if opcode == STORE_OPCODE {
        spec_decode_store(w)
    } else if opcode == BRANCH_OPCODE {
        spec_decode_branch(w)
    } else if opcode == JUMP_AND_LINK_OPCODE {
        Some(Instruction::JumpAndLink { dst: rd_of(w), offset: imm_j_of(w) })
    } else if opcode == LOAD_UPPER_IMM_OPCODE {
        Some(Instruction::LoadUpperImm { dst: rd_of(w), imm: imm_u_of(w) })
    } else if opcode == ADD_UPPER_IMM_TO_PC {
        Some(Instruction::AddUpperImmToPc { dst: rd_of(w), imm: imm_u_of(w) })
    } else {
        None
    }
}

impl Instruction {
    /// Whether every register index carried by the instruction is below 32.
    /// The decoder only produces such instructions.
    pub open spec fn regs_in_range(self) -> bool {
        match self {
            Instruction::Arith { dst, src1, src2, op } => dst < 32 && src1 < 32 && src2 < 32,
            Instruction::ArithImm { dst, src, imm, op } => dst < 32 && src < 32,
            Instruction::JumpAndLink { dst, offset } => dst < 32,
            Instruction::JumpAndLinkRegister { base, dst, offset } => base < 32 && dst < 32,
            Instruction::Store { src, offset, base, width } => src < 32 && base < 32,
            Instruction::Load { dst, offset, base, width } => dst < 32 && base < 32,
            Instruction::Branch { src1, src2, cond, offset } => src1 < 32 && src2 < 32,
            Instruction::LoadUpperImm { dst, imm } => dst < 32,
            Instruction::AddUpperImmToPc { dst, imm } => dst < 32,
        }
    }
}

/// Every instruction the decoder produces carries register indices below 32:
/// each index field is five bits of the word.
pub proof fn lemma_decode_regs_in_range(w: u32)
    ensures
        spec_decode(w) matches Some(i) ==> i.regs_in_range(),
{
    assert((w >> 7) & 0x1f < 32 && (w >> 15) & 0x1f < 32 && (w >> 20) & 0x1f < 32)
        by (bit_vector);
}

impl Opcode {
    /// The opcode a word selects, when it is one of the nine recognized ones.
    fn try_from(value: u32) -> (r: Result<Opcode, VmError>)
        ensures
            match r {
                Ok(o) => match o {
                    Opcode::Arith => value == ARITH_OPCODE,
                    Opcode::ArithImm => value == ARITH_IMM_OPCODE,
                    Opcode::Load => value == LOAD_OPCODE,
                    Opcode::Store => value == STORE_OPCODE,
                    Opcode::Branch => value == BRANCH_OPCODE,
                    Opcode::JumpAndLinkRegister => value == JUMP_AND_LINK_REGISTER_OPCODE,
                    Opcode::JumpAndLink => value == JUMP_AND_LINK_OPCODE,
                    Opcode::LoadUpperImm => value == LOAD_UPPER_IMM_OPCODE,
                    Opcode::AddUpperImmToPc => value == ADD_UPPER_IMM_TO_PC,
                },
                Err(e) => e == VmError::InvalidInstruction && value != ARITH_OPCODE && value
                    != ARITH_IMM_OPCODE && value != LOAD_OPCODE && value != STORE_OPCODE && value
                    != BRANCH_OPCODE && value != JUMP_AND_LINK_REGISTER_OPCODE && value
                    != JUMP_AND_LINK_OPCODE && value != LOAD_UPPER_IMM_OPCODE && value
                    != ADD_UPPER_IMM_TO_PC,
            },
    {
        if value == ARITH_OPCODE {
            Ok(Opcode::Arith)
        } else if value == ARITH_IMM_OPCODE {
            Ok(Opcode::ArithImm)
        } else if value == LOAD_OPCODE {
            Ok(Opcode::Load)
        } else if value == STORE_OPCODE {
            Ok(Opcode::Store)
        } else if value == BRANCH_OPCODE {
            Ok(Opcode::Branch)
        } else if value == JUMP_AND_LINK_REGISTER_OPCODE {
            Ok(Opcode::JumpAndLinkRegister)
        } else if value == JUMP_AND_LINK_OPCODE {
            Ok(Opcode::JumpAndLink)
        } else if value == LOAD_UPPER_IMM_OPCODE {
            Ok(Opcode::LoadUpperImm)
        } else if value == ADD_UPPER_IMM_TO_PC {
            Ok(Opcode::AddUpperImmToPc)
        } else {
            Err(VmError::InvalidInstruction)
        }
    }

    /// The encoding format of the instructions under this opcode.
    fn instruction_format(&self) -> (r: InstructionFormat)
        ensures
            r == match *self {
                Opcode::Arith => InstructionFormat::R,
                Opcode::ArithImm | Opcode::Load | Opcode::JumpAndLinkRegister
                    => InstructionFormat::I,
                Opcode::Store => InstructionFormat::S,
                Opcode::Branch => InstructionFormat::B,
                Opcode::JumpAndLink => InstructionFormat::J,
                Opcode::LoadUpperImm | Opcode::AddUpperImmToPc => InstructionFormat::U,
            },
    {
        match *self {
            Opcode::Arith => InstructionFormat::R,
            Opcode::ArithImm | Opcode::Load | Opcode::JumpAndLinkRegister => InstructionFormat::I,
            Opcode::Store => InstructionFormat::S,
            Opcode::Branch => InstructionFormat::B,
            Opcode::JumpAndLink => InstructionFormat::J,
            Opcode::LoadUpperImm | Opcode::AddUpperImmToPc => InstructionFormat::U,
        }
    }
}

impl LoadStoreWidth {
    /// The access width `funct3` selects for loads and stores.
    fn from_func3(func3: u32) -> (r: Result<LoadStoreWidth, VmError>)
        ensures
            match r {
                Ok(width) => spec_width_of(func3) == Some(width),
                Err(e) => spec_width_of(func3) is None && e == VmError::InvalidInstruction,
            },
    {
        if func3 == 0x0 {
            Ok(LoadStoreWidth::Byte)
        } else if func3 == 0x1 {
            Ok(LoadStoreWidth::Half)
        } else if func3 == 0x2 {
            Ok(LoadStoreWidth::Word)
        } else {
            Err(VmError::InvalidInstruction)
        }
    }
}

impl Instruction {
    /// Decodes a 32-bit word, agreeing with [`spec_decode`] on every input.
    pub fn parse(instruction: u32) -> (r: Result<Instruction, VmError>)
        ensures
            match r {
                Ok(i) => spec_decode(instruction) == Some(i),
                Err(e) => spec_decode(instruction) is None && e == VmError::InvalidInstruction,
            },
    {
        let opcode = match parse_opcode(instruction) {
            Ok(o) => o,
            Err(e) => {
                return Err(e);
            },
        };
        match opcode.instruction_format() {
            InstructionFormat::R => parse_r_instruction(instruction, opcode),
            InstructionFormat::I => parse_i_instruction(instruction, opcode),
            InstructionFormat::S => parse_s_instruction(instruction, opcode),
            InstructionFormat::B => parse_b_instruction(instruction, opcode),
            InstructionFormat::J => parse_j_instruction(instruction, opcode),
            InstructionFormat::U => parse_u_instruction(instruction, opcode),
        }
    }
}

fn parse_opcode(instruction: u32) -> (r: Result<Opcode, VmError>)
    ensures
        match r {
            Ok(o) => match o {
                Opcode::Arith => opcode_of(instruction) == ARITH_OPCODE,
                Opcode::ArithImm => opcode_of(instruction) == ARITH_IMM_OPCODE,
                Opcode::Load => opcode_of(instruction) == LOAD_OPCODE,
                Opcode::Store => opcode_of(instruction) == STORE_OPCODE,
                Opcode::Branch => opcode_of(instruction) == BRANCH_OPCODE,
                Opcode::JumpAndLinkRegister => opcode_of(instruction)
                    == JUMP_AND_LINK_REGISTER_OPCODE,
                Opcode::JumpAndLink => opcode_of(instruction) == JUMP_AND_LINK_OPCODE,
                Opcode::LoadUpperImm => opcode_of(instruction) == LOAD_UPPER_IMM_OPCODE,
                Opcode::AddUpperImmToPc => opcode_of(instruction) == ADD_UPPER_IMM_TO_PC,
            },
            Err(e) => spec_decode(instruction) is None && e == VmError::InvalidInstruction,
        },
{
    let opcode = instruction & 0x7f;
    Opcode::try_from(opcode)
}

/// Extracts the shared fields of an encoding.
fn extract_fields(w: u32) -> (r: (u32, u32, u32, u32, u32))
    ensures
        r.0 == funct3_of(w),
        r.1 == funct7_of(w),
        r.2 == rs1_of(w),
        r.3 == rs2_of(w),
        r.4 == rd_of(w),
{
    ((w >> 12) & 0x7, (w >> 25) & 0x7f, (w >> 15) & 0x1f, (w >> 20) & 0x1f, (w >> 7) & 0x1f)
}

/// Decodes the I-format immediate, sign-extended from bit 31.
fn extract_imm_i(w: u32) -> (r: i32)
    ensures
        r == imm_i_of(w),
{
    let bits = (w >> 20) & 0xfff;
    proof {
        assert(bits < 4096) by (bit_vector)
            requires
                bits == (w >> 20) & 0xfff,
        ;
    }
    if w >> 31 == 1 {
        (bits as i32) - 4096
    } else {
        bits as i32
    }
}

// R-format: |funct7|rs2|rs1|funct3|rd|opcode|.
fn parse_r_instruction(instruction: u32, opcode: Opcode) -> (r: Result<Instruction, VmError>)
    requires
        opcode == Opcode::Arith,
        opcode_of(instruction) == ARITH_OPCODE,
    ensures
        match r {
            Ok(i) => spec_decode(instruction) == Some(i),
            Err(e) => spec_decode(instruction) is None && e == VmError::InvalidInstruction,
        },
{
    let (func3, func7, rs1, rs2, rd) = extract_fields(instruction);
    let operation = if func3 == 0x0 && func7 == 0x00 {
        ArithOp::Add
    } else if func3 == 0x0 && func7 == 0x20 {
        ArithOp::Sub
    } else if func3 == 0x4 && func7 == 0x00 {
        ArithOp::Xor
    } else if func3 == 0x6 && func7 == 0x00 {
        ArithOp::Or
    } else if func3 == 0x7 && func7 == 0x00 {
        ArithOp::And
    } else if func3 == 0x1 && func7 == 0x00 {
        ArithOp::ShiftLeftLogical
    } else if func3 == 0x5 && func7 == 0x00 {
        ArithOp::ShiftRightLogical
    } else if func3 == 0x5 && func7 == 0x20 {
        ArithOp::ShiftRightArith
    } else if func3 == 0x2 && func7 == 0x00 {
        ArithOp::SetLessThan
    } else if func3 == 0x3 && func7 == 0x00 {
        ArithOp::SetLessThanU
    } else {
        return Err(VmError::InvalidInstruction);
    };
    Ok(Instruction::Arith { dst: rd, src1: rs1, src2: rs2, op: operation })
}

// I-format: |imm|rs1|funct3|rd|opcode|.
fn parse_i_instruction(instruction: u32, opcode: Opcode) -> (r: Result<Instruction, VmError>)
    requires
        opcode == Opcode::ArithImm || opcode == Opcode::Load || opcode
            == Opcode::JumpAndLinkRegister,
        opcode == Opcode::ArithImm ==> opcode_of(instruction) == ARITH_IMM_OPCODE,
        opcode == Opcode::Load ==> opcode_of(instruction) == LOAD_OPCODE,
        opcode == Opcode::JumpAndLinkRegister ==> opcode_of(instruction)
            == JUMP_AND_LINK_REGISTER_OPCODE,
    ensures
        match r {
            Ok(i) => spec_decode(instruction) == Some(i),
            Err(e) => spec_decode(instruction) is None && e == VmError::InvalidInstruction,
        },
{
    let (func3, func7, rs1, rs2, rd) = extract_fields(instruction);
    let imm = extract_imm_i(instruction);
    match opcode {
        Opcode::ArithImm => {
            let (operation, imm) = if func3 == 0x0 {
                (ArithOp::Add, imm)
            } else if func3 == 0x4 {
                (ArithOp::Xor, imm)
            } else if func3 == 0x6 {
                (ArithOp::Or, imm)
            } else if func3 == 0x7 {
                (ArithOp::And, imm)
            } else if func3 == 0x2 {
                (ArithOp::SetLessThan, imm)
            } else if func3 == 0x3 {
                (ArithOp::SetLessThanU, imm)
            } else if func3 == 0x1 {
                // The shift amount is the low five immediate bits; the upper
                // seven must be zero.
                if func7 != 0x00 {
                    return Err(VmError::InvalidInstruction);
                }
                (ArithOp::ShiftLeftLogical, rs2 as i32)
            } else if func3 == 0x5 {
                // Bit 30 distinguishes the logical and the arithmetic shift.
                if func7 == 0x00 {
                    (ArithOp::ShiftRightLogical, rs2 as i32)
                } else if func7 == 0x20 {
                    (ArithOp::ShiftRightArith, rs2 as i32)
                } else {
                    return Err(VmError::InvalidInstruction);
                }
            } else {
                proof {
                    assert(funct3_of(instruction) < 8) by (bit_vector);
                }
                return Err(VmError::InvalidInstruction);
            };
            Ok(Instruction::ArithImm { dst: rd, src: rs1, imm, op: operation })
        },
        Opcode::JumpAndLinkRegister => {
            if func3 != 0x00 {
                return Err(VmError::InvalidInstruction);
            }
            Ok(Instruction::JumpAndLinkRegister { base: rs1, dst: rd, offset: imm })
        },
        _ => {
            let width = match LoadStoreWidth::from_func3(func3) {
                Ok(width) => width,
                Err(e) => {
                    return Err(e);
                },
            };
            Ok(Instruction::Load { dst: rd, offset: imm, base: rs1, width })
        },
    }
}

// S-format: |imm[11:5]|rs2|rs1|funct3|imm[4:0]|opcode|.
fn parse_s_instruction(instruction: u32, opcode: Opcode) -> (r: Result<Instruction, VmError>)
    requires
        opcode == Opcode::Store,
        opcode_of(instruction) == STORE_OPCODE,
    ensures
        match r {
            Ok(i) => spec_decode(instruction) == Some(i),
            Err(e) => spec_decode(instruction) is None && e == VmError::InvalidInstruction,
        },
{
    let (func3, func7, rs1, rs2, rd) = extract_fields(instruction);
    proof {
        assert((funct7_of(instruction) << 5) | rd_of(instruction) < 4096) by (bit_vector);
    }
    let bits = (func7 << 5) | rd;
    let imm = if instruction >> 31 == 1 {
        bits | 0xfffff000
    } else {
        bits
    };
    let width = match LoadStoreWidth::from_func3(func3) {
        Ok(width) => width,
        Err(e) => {
            return Err(e);
        },
    };
    Ok(Instruction::Store { src: rs2, offset: imm, base: rs1, width })
}

// B-format: |imm[12|10:5]|rs2|rs1|funct3|imm[4:1|11]|opcode|.
fn parse_b_instruction(instruction: u32, opcode: Opcode) -> (r: Result<Instruction, VmError>)
    requires
        opcode == Opcode::Branch,
        opcode_of(instruction) == BRANCH_OPCODE,
    ensures
        match r {
            Ok(i) => spec_decode(instruction) == Some(i),
            Err(e) => spec_decode(instruction) is None && e == VmError::InvalidInstruction,
        },
{
    let (func3, _func7, rs1, rs2, _rd) = extract_fields(instruction);
    let bits = ((instruction >> 20) & 0x7e0) | ((instruction >> 7) & 0x1e) | ((instruction
        & 0x80) << 4);
    proof {
        assert(((instruction >> 20) & 0x7e0) | ((instruction >> 7) & 0x1e) | ((instruction
            & 0x80) << 4) < 4096) by (bit_vector);
    }
    let imm: i32 = if instruction >> 31 == 1 {
        (bits as i32) - 4096
    } else {
        bits as i32
    };
    let comparison = if func3 == 0x0 {
        Comparison::Equal
    } else if func3 == 0x1 {
        Comparison::NotEqual
    } else if func3 == 0x4 {
        Comparison::LessThan
    } else if func3 == 0x5 {
        Comparison::GreaterOrEqual
    } else if func3 == 0x6 {
        Comparison::LessThanUnsigned
    } else if func3 == 0x7 {
        Comparison::GreaterOrEqualUnsigned
    } else {
        return Err(VmError::InvalidInstruction);
    };
    Ok(Instruction::Branch { src1: rs1, src2: rs2, cond: comparison, offset: imm })
}

// J-format: |imm[20|10:1|11|19:12]|rd|opcode|.
fn parse_j_instruction(instruction: u32, opcode: Opcode) -> (r: Result<Instruction, VmError>)
    requires
        opcode == Opcode::JumpAndLink,
        opcode_of(instruction) == JUMP_AND_LINK_OPCODE,
    ensures
        match r {
            Ok(i) => spec_decode(instruction) == Some(i),
            Err(e) => spec_decode(instruction) is None && e == VmError::InvalidInstruction,
        },
{
    let bits = (instruction & 0xff000) | ((instruction & 0x100000) >> 9) | ((instruction >> 20)
        & 0x7fe);
    proof {
        assert((instruction & 0xff000) | ((instruction & 0x100000) >> 9) | ((instruction >> 20)
            & 0x7fe) < 1048576) by (bit_vector);
    }
    let imm: i32 = if instruction >> 31 == 1 {
        (bits as i32) - 1048576
    } else {
        bits as i32
    };
    let rd = (instruction >> 7) & 0x1f;
    Ok(Instruction::JumpAndLink { dst: rd, offset: imm })
}

// U-format: |imm[31:12]|rd|opcode|.
fn parse_u_instruction(instruction: u32, opcode: Opcode) -> (r: Result<Instruction, VmError>)
    requires
        opcode == Opcode::LoadUpperImm || opcode == Opcode::AddUpperImmToPc,
        opcode == Opcode::LoadUpperImm ==> opcode_of(instruction) == LOAD_UPPER_IMM_OPCODE,
        opcode == Opcode::AddUpperImmToPc ==> opcode_of(instruction) == ADD_UPPER_IMM_TO_PC,
    ensures
        match r {
            Ok(i) => spec_decode(instruction) == Some(i),
            Err(e) => spec_decode(instruction) is None && e == VmError::InvalidInstruction,
        },
{
    let imm = instruction & 0xfffff000;
    let rd = (instruction >> 7) & 0x1f;
    match opcode {
        Opcode::LoadUpperImm => Ok(Instruction::LoadUpperImm { dst: rd, imm }),
        _ => Ok(Instruction::AddUpperImmToPc { dst: rd, imm }),
    }
}

} // verus!
