//! The RV32I encoder, the decoder's left inverse.
//!
//! [`Instruction::encode`] produces, for every instruction the decoder can
//! produce (see [`Instruction::encodable`]), a 32-bit word that decodes back
//! to exactly that instruction: `spec_decode(encode(i)) == Some(i)`.

use vstd::prelude::*;

use crate::instructions::{
    opcode_of, funct3_of, funct7_of, imm_b_of, imm_i_of, imm_j_of, imm_s_of, imm_u_of, rd_of,
    rs1_of, rs2_of, spec_decode, ArithOp, Comparison, Instruction, LoadStoreWidth,
    ADD_UPPER_IMM_TO_PC, ARITH_IMM_OPCODE, ARITH_OPCODE, BRANCH_OPCODE, JUMP_AND_LINK_OPCODE,
    JUMP_AND_LINK_REGISTER_OPCODE, LOAD_OPCODE, LOAD_UPPER_IMM_OPCODE, STORE_OPCODE,
};
verus! {

/// Field extraction from an R-format or S-format word built of a seven-bit
/// high field, two register indices, a three-bit function code, a five-bit
/// low field and an opcode.
proof fn lemma_r_fields(w: u32, f7: u32, rs2: u32, rs1: u32, f3: u32, rd: u32, opc: u32)
    requires
        w == (f7 << 25) | (rs2 << 20) | (rs1 << 15) | (f3 << 12) | (rd << 7) | opc,
        f7 < 128,
        rs2 < 32,
        rs1 < 32,
        f3 < 8,
        rd < 32,
        opc < 128,
    ensures
        opcode_of(w) == opc,
        funct3_of(w) == f3,
        funct7_of(w) == f7,
        rs1_of(w) == rs1,
        rs2_of(w) == rs2,
        rd_of(w) == rd,
        w >> 31 == f7 >> 6,
{
    assert(opcode_of(w) == opc && funct3_of(w) == f3 && funct7_of(w) == f7 && rs1_of(w) == rs1
        && rs2_of(w) == rs2 && rd_of(w) == rd && w >> 31 == f7 >> 6) by (bit_vector)
        requires
            w == (f7 << 25) | (rs2 << 20) | (rs1 << 15) | (f3 << 12) | (rd << 7) | opc,
            f7 < 128 && rs2 < 32 && rs1 < 32 && f3 < 8 && rd < 32 && opc < 128,
    ;
}

/// Field extraction from an I-format word built of a twelve-bit immediate,
/// a register index, a three-bit function code, a destination index and an
/// opcode.
proof fn lemma_i_fields(w: u32, imm12: u32, rs1: u32, f3: u32, rd: u32, opc: u32)
    requires
        w == (imm12 << 20) | (rs1 << 15) | (f3 << 12) | (rd << 7) | opc,
        imm12 < 4096,
        rs1 < 32,
        f3 < 8,
        rd < 32,
        opc < 128,
    ensures
        opcode_of(w) == opc,
        funct3_of(w) == f3,
        funct7_of(w) == imm12 >> 5,
        rs1_of(w) == rs1,
        rs2_of(w) == imm12 & 0x1f,
        rd_of(w) == rd,
        (w >> 20) & 0xfff == imm12,
        w >> 31 == imm12 >> 11,
        imm12 >> 5 < 128,
        imm12 & 0x1f < 32,
{
    assert(opcode_of(w) == opc && funct3_of(w) == f3 && funct7_of(w) == imm12 >> 5 && rs1_of(w)
        == rs1 && rs2_of(w) == (imm12 & 0x1f) && rd_of(w) == rd && (w >> 20) & 0xfff == imm12 && w
        >> 31 == imm12 >> 11 && imm12 >> 5 < 128 && (imm12 & 0x1f) < 32) by (bit_vector)
        requires
            w == (imm12 << 20) | (rs1 << 15) | (f3 << 12) | (rd << 7) | opc,
            imm12 < 4096 && rs1 < 32 && f3 < 8 && rd < 32 && opc < 128,
    ;
}

/// Splitting a twelve-bit value into its high seven and low five bits and
/// recombining them is the identity.
proof fn lemma_split12(x: u32)
    requires
        x < 4096,
    ensures
        ((x >> 5) << 25) | ((x & 0x1f) << 7) == ((x >> 5) << 25) + ((x & 0x1f) << 7),
        (x >> 5) < 128,
        (x & 0x1f) < 32,
        ((x >> 5) << 5) | (x & 0x1f) == x,
        (x >> 5) >> 6 == x >> 11,
{
    assert((((x >> 5) << 25) | ((x & 0x1f) << 7)) == ((x >> 5) << 25) + ((x & 0x1f) << 7) && (x
        >> 5) < 128 && (x & 0x1f) < 32 && (((x >> 5) << 5) | (x & 0x1f)) == x && (x >> 5) >> 6 == x
        >> 11) by (bit_vector)
        requires
            x < 4096,
    ;
}

/// The low twelve bits of a word in sign-extended twelve-bit range recover
/// the word: small words pass through, large ones drop the extension and
/// regain it when it is put back.
proof fn lemma_sext12(word: u32)
    requires
        word < 2048 || word >= 0xFFFFF800,
    ensures
        word < 2048 ==> (word & 0xfff) == word && (word & 0xfff) >> 11 == 0,
        word >= 0xFFFFF800 ==> (word & 0xfff) == word - 0xFFFFF000 && (word & 0xfff) >> 11 == 1
            && ((word & 0xfff) | 0xfffff000) == word,
        word & 0xfff < 4096,
{
    assert((word < 2048 ==> (word & 0xfff) == word && (word & 0xfff) >> 11 == 0) && (word
        >= 0xFFFFF800 ==> (word & 0xfff) == word - 0xFFFFF000 && (word & 0xfff) >> 11 == 1 && (
    (word & 0xfff) | 0xfffff000) == word) && word & 0xfff < 4096) by (bit_vector)
        requires
            word < 2048 || word >= 0xFFFFF800,
    ;
}

/// Field extraction from a B-format word built of the scrambled thirteen-bit
/// branch offset `u` (a multiple of two below 8192), two source indices and
/// a three-bit function code.
proof fn lemma_b_fields(w: u32, u: u32, rs2: u32, rs1: u32, f3: u32)
    requires
        w == ((u >> 12) << 31) | (((u >> 5) & 0x3f) << 25) | (rs2 << 20) | (rs1 << 15) | (f3
            << 12) | (((u >> 1) & 0xf) << 8) | (((u >> 11) & 1) << 7) | BRANCH_OPCODE,
        u < 8192,
        u & 1 == 0,
        rs2 < 32,
        rs1 < 32,
        f3 < 8,
    ensures
        opcode_of(w) == BRANCH_OPCODE,
        funct3_of(w) == f3,
        rs1_of(w) == rs1,
        rs2_of(w) == rs2,
        ((w >> 20) & 0x7e0) | ((w >> 7) & 0x1e) | ((w & 0x80) << 4) == u & 0xfff,
        w >> 31 == u >> 12,
        u < 4096 ==> (u & 0xfff) == u && u >> 12 == 0,
        u >= 4096 ==> (u & 0xfff) == u - 4096 && u >> 12 == 1,
{
    assert(opcode_of(w) == BRANCH_OPCODE && funct3_of(w) == f3 && rs1_of(w) == rs1 && rs2_of(w)
        == rs2 && (((w >> 20) & 0x7e0) | ((w >> 7) & 0x1e) | ((w & 0x80) << 4)) == (u & 0xfff) && w
        >> 31 == u >> 12 && (u < 4096 ==> (u & 0xfff) == u && u >> 12 == 0) && (u >= 4096 ==> (u
        & 0xfff) == u - 4096 && u >> 12 == 1)) by (bit_vector)
        requires
            w == ((u >> 12) << 31) | (((u >> 5) & 0x3f) << 25) | (rs2 << 20) | (rs1 << 15) | (f3
                << 12) | (((u >> 1) & 0xf) << 8) | (((u >> 11) & 1) << 7) | 0b1100011u32,
            u < 8192 && u & 1 == 0 && rs2 < 32 && rs1 < 32 && f3 < 8,
    ;
}

/// Reducing a value below 16384 to thirteen bits subtracts 8192 from its
/// upper half.
proof fn lemma_mask13(x: u32)
    requires
        x < 16384,
    ensures
        x >= 8192 ==> (x & 0x1fff) == x - 8192,
        x < 8192 ==> (x & 0x1fff) == x,
        (x & 0x1fff) & 1 == x & 1,
{
    assert((x >= 8192 ==> (x & 0x1fff) == x - 8192) && (x < 8192 ==> (x & 0x1fff) == x) && ((x
        & 0x1fff) & 1) == (x & 1)) by (bit_vector)
        requires
            x < 16384,
    ;
}

/// Field extraction from a J-format word built of the scrambled twenty-one
/// bit jump offset `u` (a multiple of two below 2^21) and a destination
/// index.
proof fn lemma_j_fields(w: u32, u: u32, rd: u32)
    requires
        w == ((u >> 20) << 31) | (((u >> 1) & 0x3ff) << 21) | (((u >> 11) & 1) << 20) | (((u
            >> 12) & 0xff) << 12) | (rd << 7) | JUMP_AND_LINK_OPCODE,
        u < 0x200000,
        u & 1 == 0,
        rd < 32,
    ensures
        opcode_of(w) == JUMP_AND_LINK_OPCODE,
        rd_of(w) == rd,
        (w & 0xff000) | ((w & 0x100000) >> 9) | ((w >> 20) & 0x7fe) == u & 0xfffff,
        w >> 31 == u >> 20,
        u < 0x100000 ==> (u & 0xfffff) == u && u >> 20 == 0,
        u >= 0x100000 ==> (u & 0xfffff) == u - 0x100000 && u >> 20 == 1,
{
    assert(opcode_of(w) == JUMP_AND_LINK_OPCODE && rd_of(w) == rd && ((w & 0xff000) | ((w
        & 0x100000) >> 9) | ((w >> 20) & 0x7fe)) == (u & 0xfffff) && w >> 31 == u >> 20 && (u
        < 0x100000 ==> (u & 0xfffff) == u && u >> 20 == 0) && (u >= 0x100000 ==> (u & 0xfffff)
        == u - 0x100000 && u >> 20 == 1)) by (bit_vector)
        requires
            w == ((u >> 20) << 31) | (((u >> 1) & 0x3ff) << 21) | (((u >> 11) & 1) << 20) | (((u
                >> 12) & 0xff) << 12) | (rd << 7) | 0b1101111u32,
            u < 0x200000 && u & 1 == 0 && rd < 32,
    ;
}

/// Reducing a value below 2^22 to twenty-one bits subtracts 2^21 from its
/// upper half.
proof fn lemma_mask21(x: u32)
    requires
        x < 0x400000,
    ensures
        x >= 0x200000 ==> (x & 0x1fffff) == x - 0x200000,
        x < 0x200000 ==> (x & 0x1fffff) == x,
        (x & 0x1fffff) & 1 == x & 1,
{
    assert((x >= 0x200000 ==> (x & 0x1fffff) == x - 0x200000) && (x < 0x200000 ==> (x
        & 0x1fffff) == x) && ((x & 0x1fffff) & 1) == (x & 1)) by (bit_vector)
        requires
            x < 0x400000,
    ;
}

/// Field extraction from a U-format word built of an immediate with zero low
/// twelve bits, a destination index and an opcode.
proof fn lemma_u_fields(w: u32, imm: u32, rd: u32, opc: u32)
    requires
        w == imm | (rd << 7) | opc,
        imm & 0xfff == 0,
        rd < 32,
        opc < 128,
    ensures
        opcode_of(w) == opc,
        rd_of(w) == rd,
        imm_u_of(w) == imm,
{
    assert(opcode_of(w) == opc && rd_of(w) == rd && imm_u_of(w) == imm) by (bit_vector)
        requires
            w == imm | (rd << 7) | opc,
            imm & 0xfff == 0 && rd < 32 && opc < 128,
    ;
}

impl Instruction {
    /// Whether this instruction has an RV32I encoding: register indices are
    /// five bits, immediates lie in their formats' ranges, shift amounts are
    /// five bits, branch and jump offsets are even, and there is no
    /// subtract-immediate.
    pub open spec fn encodable(self) -> bool {
        match self {
            Instruction::Arith { dst, src1, src2, op } => dst < 32 && src1 < 32 && src2 < 32,
            Instruction::ArithImm { dst, src, imm, op } => dst < 32 && src < 32 && match op {
                ArithOp::Sub => false,
                ArithOp::ShiftLeftLogical => 0 <= imm < 32,
                ArithOp::ShiftRightLogical => 0 <= imm < 32,
                ArithOp::ShiftRightArith => 0 <= imm < 32,
                _ => -2048 <= imm <= 2047,
            },
            Instruction::JumpAndLink { dst, offset } => dst < 32 && -0x100000 <= offset
                <= 0xFFFFE && offset % 2 == 0,
            Instruction::JumpAndLinkRegister { base, dst, offset } => base < 32 && dst < 32
                && -2048 <= offset <= 2047,
            Instruction::Store { src, offset, base, width } => src < 32 && base < 32 && (offset
                < 2048 || offset >= 0xFFFFF800),
            Instruction::Load { dst, offset, base, width } => dst < 32 && base < 32 && -2048
                <= offset <= 2047,
            Instruction::Branch { src1, src2, cond, offset } => src1 < 32 && src2 < 32 && -4096
                <= offset <= 4094 && offset % 2 == 0,
            Instruction::LoadUpperImm { dst, imm } => dst < 32 && imm & 0xfff == 0,
            Instruction::AddUpperImmToPc { dst, imm } => dst < 32 && imm & 0xfff == 0,
        }
    }

    /// Encodes the instruction; the decoder reads the word back to exactly
    /// this instruction.
    pub fn encode(&self) -> (w: u32)
        requires
            self.encodable(),
        ensures
            spec_decode(w) == Some(*self),
    {
        match *self {
            Instruction::Arith { dst, src1, src2, op } => {
                let (f3, f7): (u32, u32) = match op {
                    ArithOp::Add => (0x0, 0x00),
                    ArithOp::Sub => (0x0, 0x20),
                    ArithOp::Xor => (0x4, 0x00),
                    ArithOp::Or => (0x6, 0x00),
                    ArithOp::And => (0x7, 0x00),
                    ArithOp::ShiftLeftLogical => (0x1, 0x00),
                    ArithOp::ShiftRightLogical => (0x5, 0x00),
                    ArithOp::ShiftRightArith => (0x5, 0x20),
                    ArithOp::SetLessThan => (0x2, 0x00),
                    ArithOp::SetLessThanU => (0x3, 0x00),
                };
                let w = (f7 << 25) | (src2 << 20) | (src1 << 15) | (f3 << 12) | (dst << 7)
                    | ARITH_OPCODE;
                proof {
                    lemma_r_fields(w, f7, src2, src1, f3, dst, ARITH_OPCODE);
                }
                w
            },
            Instruction::ArithImm { dst, src, imm, op } => {
                match op {
                    ArithOp::ShiftLeftLogical | ArithOp::ShiftRightLogical
                        | ArithOp::ShiftRightArith => {
                        let f3: u32 = if matches!(op, ArithOp::ShiftLeftLogical) {
                            0x1
                        } else {
                            0x5
                        };
                        let f7: u32 = if matches!(op, ArithOp::ShiftRightArith) {
                            0x20
                        } else {
                            0x00
                        };
                        let shamt = imm as u32;
                        let imm12 = (f7 << 5) | shamt;
                        proof {
                            assert((f7 << 5) | shamt < 4096 && ((f7 << 5) | shamt) >> 5 == f7 && (
                            (f7 << 5) | shamt) & 0x1f == shamt) by (bit_vector)
                                requires
                                    shamt < 32 && (f7 == 0x00 || f7 == 0x20),
                            ;
                        }
                        let w = (imm12 << 20) | (src << 15) | (f3 << 12) | (dst << 7)
                            | ARITH_IMM_OPCODE;
                        proof {
                            lemma_i_fields(w, imm12, src, f3, dst, ARITH_IMM_OPCODE);
                        }
                        w
                    },
                    _ => {
                        let f3: u32 = match op {
                            ArithOp::Add => 0x0,
                            ArithOp::Xor => 0x4,
                            ArithOp::Or => 0x6,
                            ArithOp::And => 0x7,
                            ArithOp::SetLessThan => 0x2,
                            _ => 0x3,
                        };
                        let word = crate::semantics::i32_to_word(imm);
                        proof {
                            lemma_sext12(word);
                        }
                        let imm12 = word & 0xfff;
                        let w = (imm12 << 20) | (src << 15) | (f3 << 12) | (dst << 7)
                            | ARITH_IMM_OPCODE;
                        proof {
                            lemma_i_fields(w, imm12, src, f3, dst, ARITH_IMM_OPCODE);
                        }
                        w
                    },
                }
            },
            Instruction::Load { dst, offset, base, width } => {
                let f3: u32 = match width {
                    LoadStoreWidth::Byte => 0x0,
                    LoadStoreWidth::Half => 0x1,
                    LoadStoreWidth::Word => 0x2,
                };
                let word = crate::semantics::i32_to_word(offset);
                proof {
                    lemma_sext12(word);
                }
                let imm12 = word & 0xfff;
                let w = (imm12 << 20) | (base << 15) | (f3 << 12) | (dst << 7) | LOAD_OPCODE;
                proof {
                    lemma_i_fields(w, imm12, base, f3, dst, LOAD_OPCODE);
                }
                w
            },
            Instruction::JumpAndLinkRegister { base, dst, offset } => {
                let word = crate::semantics::i32_to_word(offset);
                proof {
                    lemma_sext12(word);
                }
                let imm12 = word & 0xfff;
                let w = (imm12 << 20) | (base << 15) | (0 << 12) | (dst << 7)
                    | JUMP_AND_LINK_REGISTER_OPCODE;
                proof {
                    lemma_i_fields(w, imm12, base, 0, dst, JUMP_AND_LINK_REGISTER_OPCODE);
                }
                w
            },
            Instruction::Store { src, offset, base, width } => {
                let f3: u32 = match width {
                    LoadStoreWidth::Byte => 0x0,
                    LoadStoreWidth::Half => 0x1,
                    LoadStoreWidth::Word => 0x2,
                };
                proof {
                    lemma_sext12(offset);
                }
                let imm12 = offset & 0xfff;
                proof {
                    lemma_split12(imm12);
                }
                let hi7 = imm12 >> 5;
                let lo5 = imm12 & 0x1f;
                let w = (hi7 << 25) | (src << 20) | (base << 15) | (f3 << 12) | (lo5 << 7)
                    | STORE_OPCODE;
                proof {
                    lemma_r_fields(w, hi7, src, base, f3, lo5, STORE_OPCODE);
                    assert(imm_s_of(w) == offset);
                }
                w
            },
            Instruction::Branch { src1, src2, cond, offset } => {
                let f3: u32 = match cond {
                    Comparison::Equal => 0x0,
                    Comparison::NotEqual => 0x1,
                    Comparison::LessThan => 0x4,
                    Comparison::GreaterOrEqual => 0x5,
                    Comparison::LessThanUnsigned => 0x6,
                    Comparison::GreaterOrEqualUnsigned => 0x7,
                };
                let biased = (offset + 8192) as u32;
                proof {
                    lemma_mask13(biased);
                }
                let u = biased & 0x1fff;
                let w = ((u >> 12) << 31) | (((u >> 5) & 0x3f) << 25) | (src2 << 20) | (src1
                    << 15) | (f3 << 12) | (((u >> 1) & 0xf) << 8) | (((u >> 11) & 1) << 7)
                    | BRANCH_OPCODE;
                proof {
                    assert(biased & 1 == 0) by (bit_vector)
                        requires
                            biased % 2 == 0,
                    ;
                    lemma_b_fields(w, u, src2, src1, f3);
                    assert(imm_b_of(w) == offset);
                }
                w
            },
            Instruction::JumpAndLink { dst, offset } => {
                let biased = (offset + 0x200000) as u32;
                proof {
                    lemma_mask21(biased);
                }
                let u = biased & 0x1fffff;
                let w = ((u >> 20) << 31) | (((u >> 1) & 0x3ff) << 21) | (((u >> 11) & 1) << 20)
                    | (((u >> 12) & 0xff) << 12) | (dst << 7) | JUMP_AND_LINK_OPCODE;
                proof {
                    assert(biased & 1 == 0) by (bit_vector)
                        requires
                            biased % 2 == 0,
                    ;
                    lemma_j_fields(w, u, dst);
                    assert(imm_j_of(w) == offset);
                }
                w
            },
            Instruction::LoadUpperImm { dst, imm } => {
                let w = imm | (dst << 7) | LOAD_UPPER_IMM_OPCODE;
                proof {
                    lemma_u_fields(w, imm, dst, LOAD_UPPER_IMM_OPCODE);
                }
                w
            },
            Instruction::AddUpperImmToPc { dst, imm } => {
                let w = imm | (dst << 7) | ADD_UPPER_IMM_TO_PC;
                proof {
                    lemma_u_fields(w, imm, dst, ADD_UPPER_IMM_TO_PC);
                }
                w
            },
        }
    }
}

} // verus!
