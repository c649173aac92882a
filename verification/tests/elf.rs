//! ELF loader tests: a well-formed image, the zero fill past the file range,
//! the partial tail word, segment overwriting, and every reachable error.

use null_vm::elf::{Elf, ElfError};

/// Builds an ELF32 little-endian RISC-V executable from explicit header
/// fields and program headers; `segments` holds (p_type, offset, vaddr,
/// filesz, memsz) tuples and `payload` the bytes the offsets point into.
fn build_elf(
    class: u8,
    data: u8,
    e_type: u16,
    machine: u16,
    entry: u32,
    segments: &[(u32, u32, u32, u32, u32)],
    payload: &[u8],
) -> Vec<u8> {
    let phnum = segments.len() as u16;
    let mut v = vec![0u8; 52 + 32 * segments.len()];
    v[0] = 0x7f;
    v[1] = 0x45;
    v[2] = 0x4c;
    v[3] = 0x46;
    v[4] = class;
    v[5] = data;
    v[6] = 1;
    v[16..18].copy_from_slice(&e_type.to_le_bytes());
    v[18..20].copy_from_slice(&machine.to_le_bytes());
    v[20..24].copy_from_slice(&1u32.to_le_bytes());
    v[24..28].copy_from_slice(&entry.to_le_bytes());
    v[28..32].copy_from_slice(&52u32.to_le_bytes());
    v[42..44].copy_from_slice(&32u16.to_le_bytes());
    v[44..46].copy_from_slice(&phnum.to_le_bytes());
    for (i, &(p_type, offset, vaddr, filesz, memsz)) in segments.iter().enumerate() {
        let ph = 52 + 32 * i;
        v[ph..ph + 4].copy_from_slice(&p_type.to_le_bytes());
        v[ph + 4..ph + 8].copy_from_slice(&offset.to_le_bytes());
        v[ph + 8..ph + 12].copy_from_slice(&vaddr.to_le_bytes());
        v[ph + 16..ph + 20].copy_from_slice(&filesz.to_le_bytes());
        v[ph + 20..ph + 24].copy_from_slice(&memsz.to_le_bytes());
    }
    v.extend_from_slice(payload);
    v
}

fn payload_offset(num_segments: usize) -> u32 {
    (52 + 32 * num_segments) as u32
}

#[test]
fn test_load_well_formed_image() {
    let words: [u32; 2] = [0x1122_3344, 0xAABB_CCDD];
    let mut payload = Vec::new();
    for w in words {
        payload.extend_from_slice(&w.to_le_bytes());
    }
    let off = payload_offset(1);
    let elf_data = build_elf(1, 1, 2, 243, 0x2000, &[(1, off, 0x2000, 8, 8)], &payload);
    let elf = Elf::load(&elf_data).unwrap();
    assert_eq!(elf.entry_point, 0x2000);
    assert_eq!(elf.image.len(), 2);
    assert_eq!(elf.image[&0x2000], 0x1122_3344);
    assert_eq!(elf.image[&0x2004], 0xAABB_CCDD);
}

#[test]
fn test_load_zero_fills_past_file_range() {
    // memsz of 12 with filesz of 4: two zero words follow the file word.
    let payload = 0xDEAD_BEEFu32.to_le_bytes();
    let off = payload_offset(1);
    let elf_data = build_elf(1, 1, 2, 243, 0, &[(1, off, 0x100, 4, 12)], &payload);
    let elf = Elf::load(&elf_data).unwrap();
    assert_eq!(elf.image[&0x100], 0xDEAD_BEEF);
    assert_eq!(elf.image[&0x104], 0);
    assert_eq!(elf.image[&0x108], 0);
    assert_eq!(elf.image.len(), 3);
}

#[test]
fn test_load_partial_tail_word() {
    // filesz of 6: the second word takes two bytes from the file, its
    // missing high bytes default to zero.
    let payload = [0x11u8, 0x22, 0x33, 0x44, 0x55, 0x66];
    let off = payload_offset(1);
    let elf_data = build_elf(1, 1, 2, 243, 0, &[(1, off, 0, 6, 6)], &payload);
    let elf = Elf::load(&elf_data).unwrap();
    assert_eq!(elf.image[&0], 0x4433_2211);
    assert_eq!(elf.image[&4], 0x0000_6655);
}

#[test]
fn test_load_later_segment_overwrites() {
    let mut payload = Vec::new();
    payload.extend_from_slice(&1u32.to_le_bytes());
    payload.extend_from_slice(&2u32.to_le_bytes());
    let off = payload_offset(2);
    let elf_data = build_elf(
        1,
        1,
        2,
        243,
        0,
        &[(1, off, 0x40, 4, 4), (1, off + 4, 0x40, 4, 4)],
        &payload,
    );
    let elf = Elf::load(&elf_data).unwrap();
    assert_eq!(elf.image[&0x40], 2);
}

#[test]
fn test_load_skips_non_load_segments() {
    let payload = 7u32.to_le_bytes();
    let off = payload_offset(2);
    let elf_data = build_elf(
        1,
        1,
        2,
        243,
        0,
        &[(4, off, 0x40, 4, 4), (1, off, 0x80, 4, 4)],
        &payload,
    );
    let elf = Elf::load(&elf_data).unwrap();
    assert_eq!(elf.image.len(), 1);
    assert_eq!(elf.image[&0x80], 7);
}

#[test]
fn test_load_every_address_word_aligned() {
    let payload = [9u8; 20];
    let off = payload_offset(1);
    let elf_data = build_elf(1, 1, 2, 243, 0x1000, &[(1, off, 0x1000, 20, 24)], &payload);
    let elf = Elf::load(&elf_data).unwrap();
    assert_eq!(elf.entry_point % 4, 0);
    for addr in elf.image.keys() {
        assert_eq!(addr % 4, 0);
    }
}

#[test]
fn test_load_too_short() {
    assert_eq!(Elf::load(&[0x7f, 0x45, 0x4c, 0x46]).unwrap_err(), ElfError::Parse);
}

#[test]
fn test_load_bad_magic() {
    let mut elf_data = build_elf(1, 1, 2, 243, 0, &[(1, 84, 0, 0, 0)], &[]);
    elf_data[1] = 0x46;
    assert_eq!(Elf::load(&elf_data).unwrap_err(), ElfError::Parse);
}

#[test]
fn test_load_not_32_bit() {
    let elf_data = build_elf(2, 1, 2, 243, 0, &[(1, 84, 0, 0, 0)], &[]);
    assert_eq!(Elf::load(&elf_data).unwrap_err(), ElfError::Not32Bit);
}

#[test]
fn test_load_big_endian_refused() {
    let elf_data = build_elf(1, 2, 2, 243, 0, &[(1, 84, 0, 0, 0)], &[]);
    assert_eq!(Elf::load(&elf_data).unwrap_err(), ElfError::Parse);
}

#[test]
fn test_load_not_riscv() {
    let elf_data = build_elf(1, 1, 2, 62, 0, &[(1, 84, 0, 0, 0)], &[]);
    assert_eq!(Elf::load(&elf_data).unwrap_err(), ElfError::NotRiscV);
}

#[test]
fn test_load_not_executable() {
    let elf_data = build_elf(1, 1, 3, 243, 0, &[(1, 84, 0, 0, 0)], &[]);
    assert_eq!(Elf::load(&elf_data).unwrap_err(), ElfError::NotExecutable);
}

#[test]
fn test_load_unaligned_entry_point() {
    let elf_data = build_elf(1, 1, 2, 243, 0x1002, &[(1, 84, 0, 0, 0)], &[]);
    assert_eq!(Elf::load(&elf_data).unwrap_err(), ElfError::InvalidEntryPoint);
}

#[test]
fn test_load_no_segments() {
    let elf_data = build_elf(1, 1, 2, 243, 0, &[], &[]);
    assert_eq!(Elf::load(&elf_data).unwrap_err(), ElfError::NoSegments);
}

#[test]
fn test_load_too_many_segments() {
    let segments = vec![(1u32, 0u32, 0u32, 0u32, 0u32); 257];
    let elf_data = build_elf(1, 1, 2, 243, 0, &segments, &[]);
    assert_eq!(Elf::load(&elf_data).unwrap_err(), ElfError::TooManySegments);
}

#[test]
fn test_load_unaligned_vaddr() {
    let elf_data = build_elf(1, 1, 2, 243, 0, &[(1, 84, 0x101, 0, 4)], &[0, 0, 0, 0]);
    assert_eq!(Elf::load(&elf_data).unwrap_err(), ElfError::UnalignedVAddr);
}

#[test]
fn test_load_invalid_offset() {
    // The segment claims four file bytes but the file ends at its header.
    let elf_data = build_elf(1, 1, 2, 243, 0, &[(1, 84, 0x100, 4, 4)], &[]);
    assert_eq!(Elf::load(&elf_data).unwrap_err(), ElfError::InvalidOffset);
}

#[test]
fn test_load_address_overflow() {
    // A segment whose words run past the top of the address space.
    let payload = [0u8; 8];
    let off = payload_offset(1);
    let elf_data = build_elf(1, 1, 2, 243, 0, &[(1, off, 0xFFFF_FFFC, 8, 8)], &payload);
    assert_eq!(Elf::load(&elf_data).unwrap_err(), ElfError::AddrTooLarge);
}
