//! Decoder unit tests and decode-of-encode round trips.

use null_vm::errors::VmError;
use null_vm::instructions::{ArithOp, Comparison, Instruction, LoadStoreWidth};

#[test]
fn test_parse_addi() {
    // addi a0, zero, 1.
    assert_eq!(
        Instruction::parse(0x0010_0513).unwrap(),
        Instruction::ArithImm { dst: 10, src: 0, imm: 1, op: ArithOp::Add }
    );
}

#[test]
fn test_parse_addi_negative() {
    // addi a0, zero, -2048.
    assert_eq!(
        Instruction::parse(0x8000_0513).unwrap(),
        Instruction::ArithImm { dst: 10, src: 0, imm: -2048, op: ArithOp::Add }
    );
}

#[test]
fn test_parse_add() {
    // add a0, t0, t1.
    assert_eq!(
        Instruction::parse(0x0062_8533).unwrap(),
        Instruction::Arith { dst: 10, src1: 5, src2: 6, op: ArithOp::Add }
    );
}

#[test]
fn test_parse_sub() {
    // sub a0, t0, t1.
    assert_eq!(
        Instruction::parse(0x4062_8533).unwrap(),
        Instruction::Arith { dst: 10, src1: 5, src2: 6, op: ArithOp::Sub }
    );
}

#[test]
fn test_parse_srai_masks_shift() {
    // srai a0, t0, 4: bit 30 selects the arithmetic shift, the amount is the
    // low five immediate bits.
    assert_eq!(
        Instruction::parse(0x4042_D513).unwrap(),
        Instruction::ArithImm { dst: 10, src: 5, imm: 4, op: ArithOp::ShiftRightArith }
    );
}

#[test]
fn test_parse_jalr() {
    // jalr zero, 0(ra): the conventional return.
    assert_eq!(
        Instruction::parse(0x0000_8067).unwrap(),
        Instruction::JumpAndLinkRegister { base: 1, dst: 0, offset: 0 }
    );
}

#[test]
fn test_parse_lui() {
    // lui t0, 0x12345.
    assert_eq!(
        Instruction::parse(0x1234_52B7).unwrap(),
        Instruction::LoadUpperImm { dst: 5, imm: 0x1234_5000 }
    );
}

#[test]
fn test_parse_unknown_opcode() {
    assert_eq!(Instruction::parse(0xFFFF_FFFF).unwrap_err(), VmError::InvalidInstruction);
    assert_eq!(Instruction::parse(0).unwrap_err(), VmError::InvalidInstruction);
}

#[test]
fn test_parse_invalid_funct7() {
    // An R-format add with a stray funct7 bit is not an instruction.
    assert_eq!(Instruction::parse(0x0862_8533).unwrap_err(), VmError::InvalidInstruction);
}

#[test]
fn test_parse_invalid_shift_immediate() {
    // slli with a nonzero upper immediate is not an instruction.
    assert_eq!(Instruction::parse(0x0802_9513).unwrap_err(), VmError::InvalidInstruction);
}

/// Encodes each instruction and decodes the word back, expecting identity.
fn round_trip(instrs: &[Instruction]) {
    for i in instrs {
        let w = i.encode();
        assert_eq!(Instruction::parse(w).unwrap(), *i);
    }
}

#[test]
fn test_round_trip_arith() {
    let ops = [
        ArithOp::Add,
        ArithOp::Sub,
        ArithOp::Xor,
        ArithOp::Or,
        ArithOp::And,
        ArithOp::ShiftLeftLogical,
        ArithOp::ShiftRightLogical,
        ArithOp::ShiftRightArith,
        ArithOp::SetLessThan,
        ArithOp::SetLessThanU,
    ];
    let instrs: Vec<Instruction> = ops
        .iter()
        .map(|&op| Instruction::Arith { dst: 31, src1: 17, src2: 3, op })
        .collect();
    round_trip(&instrs);
}

#[test]
fn test_round_trip_arith_imm() {
    round_trip(&[
        Instruction::ArithImm { dst: 1, src: 2, imm: 2047, op: ArithOp::Add },
        Instruction::ArithImm { dst: 1, src: 2, imm: -2048, op: ArithOp::Add },
        Instruction::ArithImm { dst: 30, src: 15, imm: -1, op: ArithOp::Xor },
        Instruction::ArithImm { dst: 7, src: 8, imm: 0, op: ArithOp::Or },
        Instruction::ArithImm { dst: 7, src: 8, imm: 1365, op: ArithOp::And },
        Instruction::ArithImm { dst: 9, src: 10, imm: -7, op: ArithOp::SetLessThan },
        Instruction::ArithImm { dst: 9, src: 10, imm: 7, op: ArithOp::SetLessThanU },
        Instruction::ArithImm { dst: 3, src: 4, imm: 0, op: ArithOp::ShiftLeftLogical },
        Instruction::ArithImm { dst: 3, src: 4, imm: 31, op: ArithOp::ShiftLeftLogical },
        Instruction::ArithImm { dst: 3, src: 4, imm: 17, op: ArithOp::ShiftRightLogical },
        Instruction::ArithImm { dst: 3, src: 4, imm: 31, op: ArithOp::ShiftRightArith },
    ]);
}

#[test]
fn test_round_trip_load_store() {
    round_trip(&[
        Instruction::Load { dst: 10, offset: -2048, base: 2, width: LoadStoreWidth::Word },
        Instruction::Load { dst: 10, offset: 2047, base: 2, width: LoadStoreWidth::Byte },
        Instruction::Load { dst: 10, offset: 0, base: 2, width: LoadStoreWidth::Half },
        Instruction::Store { src: 10, offset: 0, base: 2, width: LoadStoreWidth::Word },
        Instruction::Store { src: 10, offset: 2047, base: 2, width: LoadStoreWidth::Word },
        // A store offset of -4, as the two's-complement word.
        Instruction::Store { src: 10, offset: 0xFFFF_FFFC, base: 2, width: LoadStoreWidth::Byte },
        Instruction::Store { src: 10, offset: 0xFFFF_F800, base: 2, width: LoadStoreWidth::Half },
    ]);
}

#[test]
fn test_round_trip_branch() {
    let conds = [
        Comparison::Equal,
        Comparison::NotEqual,
        Comparison::LessThan,
        Comparison::GreaterOrEqual,
        Comparison::LessThanUnsigned,
        Comparison::GreaterOrEqualUnsigned,
    ];
    let mut instrs: Vec<Instruction> = conds
        .iter()
        .map(|&cond| Instruction::Branch { src1: 4, src2: 21, cond, offset: -4096 })
        .collect();
    instrs.push(Instruction::Branch { src1: 0, src2: 0, cond: Comparison::Equal, offset: 4094 });
    instrs.push(Instruction::Branch { src1: 0, src2: 1, cond: Comparison::NotEqual, offset: -2 });
    instrs.push(Instruction::Branch { src1: 2, src2: 3, cond: Comparison::LessThan, offset: 0 });
    round_trip(&instrs);
}

#[test]
fn test_round_trip_jumps() {
    round_trip(&[
        Instruction::JumpAndLink { dst: 1, offset: -1048576 },
        Instruction::JumpAndLink { dst: 1, offset: 1048574 },
        Instruction::JumpAndLink { dst: 0, offset: 0 },
        Instruction::JumpAndLink { dst: 31, offset: -2 },
        Instruction::JumpAndLinkRegister { base: 1, dst: 0, offset: 0 },
        Instruction::JumpAndLinkRegister { base: 5, dst: 1, offset: -2048 },
        Instruction::JumpAndLinkRegister { base: 5, dst: 1, offset: 2047 },
    ]);
}

#[test]
fn test_round_trip_upper_immediates() {
    round_trip(&[
        Instruction::LoadUpperImm { dst: 5, imm: 0 },
        Instruction::LoadUpperImm { dst: 5, imm: 0xFFFF_F000 },
        Instruction::LoadUpperImm { dst: 5, imm: 0x8000_0000 },
        Instruction::AddUpperImmToPc { dst: 5, imm: 0x0000_1000 },
        Instruction::AddUpperImmToPc { dst: 31, imm: 0xFFFF_F000 },
    ]);
}
