//! End-to-end executor scenarios: programs assembled in memory, loaded as
//! ELF images, and run until `ret` through the zeroed return-address register
//! halts the machine.

use std::collections::BTreeMap;

use null_vm::elf::Elf;
use null_vm::errors::VmError;
use null_vm::execution::run_program;
use null_vm::instructions::{ArithOp, Comparison, Instruction, LoadStoreWidth};
use null_vm::machine::{Memory, Registers};
use null_vm::semantics::word_to_i32;

/// A minimal 32-bit little-endian RISC-V executable holding the given words
/// as one loadable segment at `vaddr`, entered at `entry`.
fn minimal_elf(words: &[u32], entry: u32, vaddr: u32) -> Vec<u8> {
    let mut v = vec![0u8; 84];
    // ELF identification: magic, 32-bit class, little-endian data, version.
    v[0] = 0x7f;
    v[1] = 0x45;
    v[2] = 0x4c;
    v[3] = 0x46;
    v[4] = 1;
    v[5] = 1;
    v[6] = 1;
    // e_type = executable, e_machine = RISC-V, e_version = 1.
    v[16..18].copy_from_slice(&2u16.to_le_bytes());
    v[18..20].copy_from_slice(&243u16.to_le_bytes());
    v[20..24].copy_from_slice(&1u32.to_le_bytes());
    v[24..28].copy_from_slice(&entry.to_le_bytes());
    // One program header of 32 bytes right after the 52-byte header.
    v[28..32].copy_from_slice(&52u32.to_le_bytes());
    v[42..44].copy_from_slice(&32u16.to_le_bytes());
    v[44..46].copy_from_slice(&1u16.to_le_bytes());
    // PT_LOAD at file offset 84.
    let filesz = 4 * words.len() as u32;
    v[52..56].copy_from_slice(&1u32.to_le_bytes());
    v[56..60].copy_from_slice(&84u32.to_le_bytes());
    v[60..64].copy_from_slice(&vaddr.to_le_bytes());
    v[68..72].copy_from_slice(&filesz.to_le_bytes());
    v[72..76].copy_from_slice(&filesz.to_le_bytes());
    for w in words {
        v.extend_from_slice(&w.to_le_bytes());
    }
    v
}

/// Assembles the instructions at 0x1000 followed by `ret`, loads the image as
/// an ELF, runs it, and returns the final (a0, a1).
fn run_asm(instrs: &[Instruction]) -> (i32, i32) {
    let ret = Instruction::JumpAndLinkRegister { base: 1, dst: 0, offset: 0 };
    let mut words: Vec<u32> = instrs.iter().map(|i| i.encode()).collect();
    words.push(ret.encode());
    let elf_data = minimal_elf(&words, 0x1000, 0x1000);
    let program = Elf::load(&elf_data).unwrap();
    assert_eq!(program.entry_point, 0x1000);
    let (results, _logs) = run_program(program.image, program.entry_point).unwrap();
    results
}

fn addi(dst: u32, src: u32, imm: i32) -> Instruction {
    Instruction::ArithImm { dst, src, imm, op: ArithOp::Add }
}

#[test]
fn test_addi_one() {
    assert_eq!(run_asm(&[addi(10, 0, 1)]), (1, 0));
}

#[test]
fn test_addi_max() {
    assert_eq!(run_asm(&[addi(10, 0, 2047)]), (2047, 0));
}

#[test]
fn test_addi_min() {
    assert_eq!(run_asm(&[addi(10, 0, -2048)]), (-2048, 0));
}

#[test]
fn test_add() {
    // addi t0, zero, 10; addi t1, zero, 20; add a0, t0, t1; ret.
    assert_eq!(
        run_asm(&[
            addi(5, 0, 10),
            addi(6, 0, 20),
            Instruction::Arith { dst: 10, src1: 5, src2: 6, op: ArithOp::Add },
        ]),
        (30, 0)
    );
}

#[test]
fn test_add_max_plus_one() {
    // Load i32::MAX into t0, then add 1: the sum wraps to i32::MIN.
    assert_eq!(
        run_asm(&[
            Instruction::LoadUpperImm { dst: 5, imm: 0x8000_0000 },
            addi(5, 5, -1),
            addi(10, 5, 1),
        ]),
        (i32::MIN, 0)
    );
}

#[test]
fn test_andi() {
    // A previous load of 0xFFFF_FFFF into a0, then andi with the
    // sign-extended all-ones immediate keeps every bit.
    assert_eq!(
        run_asm(&[
            addi(10, 0, -1),
            Instruction::ArithImm { dst: 10, src: 10, imm: -1, op: ArithOp::And },
        ]),
        (0xFFFF_FFFFu32 as i32, 0)
    );
}

#[test]
fn test_ori() {
    // ori a0, zero, 5; ori a0, a0, 2; ret.
    assert_eq!(
        run_asm(&[
            Instruction::ArithImm { dst: 10, src: 0, imm: 5, op: ArithOp::Or },
            Instruction::ArithImm { dst: 10, src: 10, imm: 2, op: ArithOp::Or },
        ]),
        (7, 0)
    );
}

#[test]
fn test_writes_to_register_zero_are_discarded() {
    // addi zero, zero, 5 must leave register 0 at zero; a0 copies it.
    assert_eq!(run_asm(&[addi(0, 0, 5), addi(10, 0, 0)]), (0, 0));
}

#[test]
fn test_store_load_roundtrip() {
    // Store a value at an address, load it back into a0.
    assert_eq!(
        run_asm(&[
            addi(5, 0, 123),
            addi(6, 0, 0x200),
            Instruction::Store { src: 5, offset: 0, base: 6, width: LoadStoreWidth::Word },
            Instruction::Load { dst: 10, offset: 0, base: 6, width: LoadStoreWidth::Word },
        ]),
        (123, 0)
    );
}

#[test]
fn test_branch_taken_skips() {
    // beq zero, zero skips over the instruction that would set a0 to 1.
    assert_eq!(
        run_asm(&[
            Instruction::Branch { src1: 0, src2: 0, cond: Comparison::Equal, offset: 8 },
            addi(10, 0, 1),
            addi(11, 0, 9),
        ]),
        (0, 9)
    );
}

#[test]
fn test_jal_links_next_instruction() {
    // jal a0, +8 stores the address of the following instruction.
    // Program at 0x1000: jal a0, 8; <skipped>; ret.
    assert_eq!(
        run_asm(&[Instruction::JumpAndLink { dst: 10, offset: 8 }, addi(11, 0, 1)]),
        (0x1004, 0)
    );
}

#[test]
fn test_auipc() {
    // auipc a0, 0x1000 at address 0x1000 yields 0x2000.
    assert_eq!(
        run_asm(&[Instruction::AddUpperImmToPc { dst: 10, imm: 0x1000 }]),
        (0x2000, 0)
    );
}

#[test]
fn test_run_program_unmapped_fetch() {
    let image: BTreeMap<u32, u32> = BTreeMap::new();
    assert_eq!(run_program(image, 4).unwrap_err(), VmError::UnmappedMemoryRead);
}

#[test]
fn test_run_program_invalid_instruction() {
    let mut image: BTreeMap<u32, u32> = BTreeMap::new();
    image.insert(4, 0xFFFF_FFFF);
    assert_eq!(run_program(image, 4).unwrap_err(), VmError::InvalidInstruction);
}

#[test]
fn test_run_program_unimplemented_width() {
    // A byte load decodes fine but the executor only implements words.
    let lb = Instruction::Load { dst: 10, offset: 0, base: 0, width: LoadStoreWidth::Byte };
    let mut image: BTreeMap<u32, u32> = BTreeMap::new();
    image.insert(4, lb.encode());
    assert_eq!(run_program(image, 4).unwrap_err(), VmError::UnimplementedWidth);
}

#[test]
fn test_logs_record_each_instruction() {
    let prog = [addi(10, 0, 1), addi(11, 0, 2)];
    let ret = Instruction::JumpAndLinkRegister { base: 1, dst: 0, offset: 0 };
    let mut image: BTreeMap<u32, u32> = BTreeMap::new();
    image.insert(0x1000, prog[0].encode());
    image.insert(0x1004, prog[1].encode());
    image.insert(0x1008, ret.encode());
    let ((a0, a1), logs) = run_program(image, 0x1000).unwrap();
    assert_eq!((a0, a1), (1, 2));
    assert_eq!(logs.len(), 3);
    assert_eq!(logs[0].instruction, prog[0]);
    assert_eq!(logs[0].updated_register_value, 1);
    assert_eq!(logs[1].updated_register_value, 2);
}

#[test]
fn test_registers_hardwired_zero() {
    let mut regs = Registers::default();
    regs.write(0, 77);
    assert_eq!(regs.read(0), 0);
    regs.write(3, 77);
    assert_eq!(regs.read(3), 77);
}

#[test]
fn test_memory_read_write() {
    let mut mem = Memory::default();
    assert_eq!(mem.read(16).unwrap_err(), VmError::UnmappedMemoryRead);
    mem.write(16, 99);
    assert_eq!(mem.read(16).unwrap(), 99);
    mem.write(16, 100);
    assert_eq!(mem.read(16).unwrap(), 100);
}

#[test]
fn test_word_conversions() {
    assert_eq!(word_to_i32(0xFFFF_FFFF), -1);
    assert_eq!(word_to_i32(0x7FFF_FFFF), i32::MAX);
    assert_eq!(null_vm::semantics::i32_to_word(-1), 0xFFFF_FFFF);
    assert_eq!(null_vm::semantics::i32_to_word(i32::MIN), 0x8000_0000);
}

#[test]
fn test_apply_add_wraps() {
    assert_eq!(ArithOp::Add.apply(i32::MAX, 1), i32::MIN);
    assert_eq!(ArithOp::Add.apply(i32::MIN, -1), i32::MAX);
}

#[test]
fn test_apply_set_less_than() {
    assert_eq!(ArithOp::SetLessThanU.apply(-1, 1), 0);
    assert_eq!(ArithOp::SetLessThan.apply(-1, 1), 1);
}

#[test]
fn test_apply_shifts() {
    assert_eq!(
        ArithOp::ShiftLeftLogical.apply(0xFFFF_FFFFu32 as i32, 31),
        0x8000_0000u32 as i32
    );
    assert_eq!(ArithOp::ShiftRightLogical.apply(0xFFFF_FFFFu32 as i32, 28), 0x0000_000F);
    assert_eq!(ArithOp::ShiftRightArith.apply(-16, 2), -4);
    // The shift amount is the low five bits of the right operand.
    assert_eq!(ArithOp::ShiftLeftLogical.apply(1, 33), 2);
}

#[test]
fn test_apply_bitwise_and_sub() {
    assert_eq!(ArithOp::Xor.apply(0b1100, 0b1010), 0b0110);
    assert_eq!(ArithOp::Or.apply(0b1100, 0b1010), 0b1110);
    assert_eq!(ArithOp::And.apply(0b1100, 0b1010), 0b1000);
    assert_eq!(ArithOp::Sub.apply(5, 7), -2);
    assert_eq!(ArithOp::Sub.apply(i32::MIN, 1), i32::MAX);
}
