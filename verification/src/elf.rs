//! The ELF loader.
//!
//! Parses a 32-bit little-endian RISC-V executable image and produces the
//! entry address together with a word-addressed memory image: one 32-bit
//! little-endian word per word-aligned address of every `PT_LOAD` segment,
//! taken from the file bytes inside the segment's file range and zero past it
//! (the partial tail word fills its missing high bytes with zero).
//!
//! [`spec_elf_load`] is the full specification; [`Elf::load`] is proved to
//! agree with it on every input, error for error.

use std::collections::BTreeMap;

use vstd::prelude::*;

verus! {

broadcast use vstd::laws_cmp::group_laws_cmp;

/// Word size of the machine, in bytes.
pub const WORD_SIZE: u32 = 4;

/// The most program headers an executable may carry.
pub const MAX_SEGMENTS: u32 = 256;

/// The ELF program-header type of a segment to be loaded into memory.
pub const PT_LOAD: u32 = 1;

/// The ELF machine number of RISC-V.
pub const EM_RISCV: u32 = 243;

/// The ELF file type of an executable.
pub const ET_EXEC: u32 = 2;

/// A loaded program: the entry address and the word-addressed image.
#[derive(Debug)]
pub struct Elf {
    pub entry_point: u32,
    pub image: BTreeMap<u32, u32>,
}

/// The ways loading an ELF image fails. All are fatal; nothing is retried.
#[derive(Clone, Copy, Debug, PartialEq, Eq, Structural)]
pub enum ElfError {
    /// The header is malformed: too short, a bad magic, not little-endian,
    /// or a program-header table that does not fit the file.
    Parse,
    /// Not a 32-bit ELF.
    Not32Bit,
    /// Not a RISC-V ELF.
    NotRiscV,
    /// Not an executable.
    NotExecutable,
    /// The entry point is not word-aligned.
    InvalidEntryPoint,
    /// No program headers.
    NoSegments,
    /// More than [`MAX_SEGMENTS`] program headers.
    TooManySegments,
    /// A segment's file size does not fit in 32 bits. A 32-bit header field
    /// always fits, so loading never returns this.
    FileSizeTooLarge,
    /// A segment's memory size does not fit in 32 bits; never returned, as
    /// above.
    MemSizeTooLarge,
    /// A segment's virtual address does not fit in 32 bits; never returned,
    /// as above.
    VAddrTooLarge,
    /// A segment's virtual address is not word-aligned.
    UnalignedVAddr,
    /// A segment's file offset does not fit in 32 bits; never returned, as
    /// above.
    OffsetTooLarge,
    /// A loaded word's address overflows 32 bits.
    AddrTooLarge,
    /// A segment's file range reaches outside the input bytes.
    InvalidOffset,
}

/// The 16-bit little-endian value at byte offset `off`.
pub open spec fn spec_read_u16(s: Seq<u8>, off: int) -> u32 {
    (s[off] + 256 * s[off + 1]) as u32
}

/// The 32-bit little-endian value at byte offset `off`.
pub open spec fn spec_read_u32(s: Seq<u8>, off: int) -> u32 {
    (s[off] + 256 * s[off + 1] + 65536 * s[off + 2] + 16777216 * s[off + 3]) as u32
}

/// The little-endian word of the `count` bytes at offset `off` (`count` in
/// 1..=4), missing high bytes zero.
pub open spec fn spec_le_word(s: Seq<u8>, off: int, count: int) -> u32 {
    ((if count >= 1 {
        s[off] as int
    } else {
        0
    }) + (if count >= 2 {
        256 * s[off + 1]
    } else {
        0
    }) + (if count >= 3 {
        65536 * s[off + 2]
    } else {
        0
    }) + (if count >= 4 {
        16777216 * s[off + 3]
    } else {
        0
    })) as u32
}

/// How many words a segment of `mem_size` bytes occupies.
pub open spec fn spec_num_words(mem_size: u32) -> nat {
    ((mem_size + 3) / 4) as nat
}

/// The image after materializing the first `k` words of one segment over
/// `base`: the word for segment-relative offset `4*j` comes from the file
/// bytes at `offset + 4*j` while inside the file range `[0, file_size)`, and
/// is zero from there on; or the first word whose address overflows or whose
/// file bytes lie outside the input.
pub open spec fn spec_segment_words(
    s: Seq<u8>,
    base: Map<u32, u32>,
    offset: u32,
    vaddr: u32,
    file_size: u32,
    k: nat,
) -> Result<Map<u32, u32>, ElfError>
    decreases k,
{
    if k == 0 {
        Ok(base)
    } else {
        match spec_segment_words(s, base, offset, vaddr, file_size, (k - 1) as nat) {
            Err(e) => Err(e),
            Ok(m) => {
                let i = (k - 1) * 4;
                if vaddr + i > u32::MAX {
                    Err(ElfError::AddrTooLarge)
                } else {
                    let addr = (vaddr + i) as u32;
                    if i >= file_size {
                        Ok(m.insert(addr, 0))
                    } else {
                        let count = if file_size - i < 4 {
                            file_size - i
                        } else {
                            4
                        };
                        if offset + i + count > s.len() {
                            Err(ElfError::InvalidOffset)
                        } else {
                            Ok(m.insert(addr, spec_le_word(s, offset + i, count)))
                        }
                    }
                }
            },
        }
    }
}

/// The image contribution of the program header at index `idx`: unchanged
/// unless it is a `PT_LOAD` segment, else all its words; segments with an
/// unaligned virtual address are refused.
pub open spec fn spec_load_one_segment(s: Seq<u8>, m: Map<u32, u32>, idx: nat) -> Result<
    Map<u32, u32>,
    ElfError,
> {
    let ph = spec_read_u32(s, 28) + 32 * idx;
    if spec_read_u32(s, ph) != PT_LOAD {
        Ok(m)
    } else {
        let offset = spec_read_u32(s, ph + 4);
        let vaddr = spec_read_u32(s, ph + 8);
        let file_size = spec_read_u32(s, ph + 16);
        let mem_size = spec_read_u32(s, ph + 20);
        if vaddr % 4 != 0 {
            Err(ElfError::UnalignedVAddr)
        } else {
            spec_segment_words(s, m, offset, vaddr, file_size, spec_num_words(mem_size))
        }
    }
}

/// The image after the first `n` program headers, later segments overwriting
/// earlier keys.
pub open spec fn spec_load_segments(s: Seq<u8>, base: Map<u32, u32>, n: nat) -> Result<
    Map<u32, u32>,
    ElfError,
>
    decreases n,
{
    if n == 0 {
        Ok(base)
    } else {
        match spec_load_segments(s, base, (n - 1) as nat) {
            Err(e) => Err(e),
            Ok(m) => spec_load_one_segment(s, m, (n - 1) as nat),
        }
    }
}

/// What loading yields on any input: the entry point and the image, or the
/// first validation that fails.
pub open spec fn spec_elf_load(s: Seq<u8>) -> Result<(u32, Map<u32, u32>), ElfError> {
    if s.len() < 52 {
        Err(ElfError::Parse)
    } else if !(s[0] == 0x7f && s[1] == 0x45 && s[2] == 0x4c && s[3] == 0x46) {
        Err(ElfError::Parse)
    } else if s[4] != 1 {
        Err(ElfError::Not32Bit)
    } else if s[5] != 1 {
        Err(ElfError::Parse)
    } else if spec_read_u16(s, 18) != EM_RISCV {
        Err(ElfError::NotRiscV)
    } else if spec_read_u16(s, 16) != ET_EXEC {
        Err(ElfError::NotExecutable)
    } else if spec_read_u32(s, 24) % 4 != 0 {
        Err(ElfError::InvalidEntryPoint)
    } else if spec_read_u32(s, 28) == 0 || spec_read_u16(s, 44) == 0 {
        Err(ElfError::NoSegments)
    } else if spec_read_u16(s, 44) > MAX_SEGMENTS {
        Err(ElfError::TooManySegments)
    } else if spec_read_u16(s, 42) != 32 {
        Err(ElfError::Parse)
    } else if spec_read_u32(s, 28) + 32 * spec_read_u16(s, 44) > s.len() {
        Err(ElfError::Parse)
    } else {
        match spec_load_segments(s, Map::empty(), spec_read_u16(s, 44) as nat) {
            Err(e) => Err(e),
            Ok(m) => Ok((spec_read_u32(s, 24), m)),
        }
    }
}

/// A word-materialization error stays: more words do not recover it.
proof fn lemma_segment_words_err_persists(
    s: Seq<u8>,
    base: Map<u32, u32>,
    offset: u32,
    vaddr: u32,
    file_size: u32,
    k1: nat,
    k2: nat,
)
    requires
        k1 <= k2,
        spec_segment_words(s, base, offset, vaddr, file_size, k1) is Err,
    ensures
        spec_segment_words(s, base, offset, vaddr, file_size, k2) == spec_segment_words(
            s,
            base,
            offset,
            vaddr,
            file_size,
            k1,
        ),
    decreases k2,
{
    if k2 > k1 {
        lemma_segment_words_err_persists(s, base, offset, vaddr, file_size, k1, (k2 - 1) as nat);
    }
}

/// A segment error stays: later segments do not recover it.
proof fn lemma_load_segments_err_persists(s: Seq<u8>, base: Map<u32, u32>, n1: nat, n2: nat)
    requires
        n1 <= n2,
        spec_load_segments(s, base, n1) is Err,
    ensures
        spec_load_segments(s, base, n2) == spec_load_segments(s, base, n1),
    decreases n2,
{
    if n2 > n1 {
        lemma_load_segments_err_persists(s, base, n1, (n2 - 1) as nat);
    }
}

/// Materializing a segment's words only adds word-aligned addresses, when
/// the segment's virtual address is word-aligned.
proof fn lemma_segment_words_aligned(
    s: Seq<u8>,
    base: Map<u32, u32>,
    offset: u32,
    vaddr: u32,
    file_size: u32,
    k: nat,
)
    requires
        vaddr % 4 == 0,
        forall|a: u32| base.contains_key(a) ==> a % 4 == 0,
    ensures
        spec_segment_words(s, base, offset, vaddr, file_size, k) matches Ok(m) ==> forall|a: u32|
            m.contains_key(a) ==> a % 4 == 0,
    decreases k,
{
    if k > 0 {
        lemma_segment_words_aligned(s, base, offset, vaddr, file_size, (k - 1) as nat);
    }
}

/// Loading segments only adds word-aligned addresses.
proof fn lemma_load_segments_aligned(s: Seq<u8>, base: Map<u32, u32>, n: nat)
    requires
        forall|a: u32| base.contains_key(a) ==> a % 4 == 0,
    ensures
        spec_load_segments(s, base, n) matches Ok(m) ==> forall|a: u32|
            m.contains_key(a) ==> a % 4 == 0,
    decreases n,
{
    if n > 0 {
        lemma_load_segments_aligned(s, base, (n - 1) as nat);
        if spec_load_segments(s, base, (n - 1) as nat) is Ok {
            let m = spec_load_segments(s, base, (n - 1) as nat)->Ok_0;
            let ph = spec_read_u32(s, 28) + 32 * (n - 1);
            if spec_read_u32(s, ph) == PT_LOAD && spec_read_u32(s, ph + 8) % 4 == 0 {
                lemma_segment_words_aligned(
                    s,
                    m,
                    spec_read_u32(s, ph + 4),
                    spec_read_u32(s, ph + 8),
                    spec_read_u32(s, ph + 16),
                    spec_num_words(spec_read_u32(s, ph + 20)),
                );
            }
        }
    }
}

/// For a well-formed input, every produced address is word-aligned, the
/// entry point included.
pub proof fn lemma_elf_load_aligned(s: Seq<u8>)
    ensures
        spec_elf_load(s) matches Ok(t) ==> t.0 % 4 == 0 && forall|a: u32|
            t.1.contains_key(a) ==> a % 4 == 0,
{
    if spec_elf_load(s) is Ok {
        lemma_load_segments_aligned(s, Map::empty(), spec_read_u16(s, 44) as nat);
    }
}

/// Every loaded word of a segment lands at its target virtual address, each
/// exactly once: after materializing `k` words, the word for segment-relative
/// offset `4*j` (for any `j < k`) holds the little-endian composition of the
/// file bytes at `offset + 4*j` inside the file range, zero past it, and no
/// later word of the segment disturbs it.
pub proof fn lemma_segment_word_content(
    s: Seq<u8>,
    base: Map<u32, u32>,
    offset: u32,
    vaddr: u32,
    file_size: u32,
    k: nat,
    j: nat,
)
    requires
        j < k,
    ensures
        spec_segment_words(s, base, offset, vaddr, file_size, k) matches Ok(m) ==> {
            let addr = (vaddr + 4 * j) as u32;
            &&& vaddr + 4 * j <= u32::MAX
            &&& m.contains_key(addr)
            &&& m[addr] == if 4 * j >= file_size {
                0u32
            } else {
                spec_le_word(
                    s,
                    offset + 4 * j,
                    if file_size - 4 * j < 4 {
                        file_size - 4 * j
                    } else {
                        4
                    },
                )
            }
        },
    decreases k,
{
    if spec_segment_words(s, base, offset, vaddr, file_size, k) is Ok && k > 0 {
        if j < k - 1 {
            lemma_segment_word_content(s, base, offset, vaddr, file_size, (k - 1) as nat, j);
        }
    }
}

/// Reads the 16-bit little-endian value at `off`.
fn read_u16(input: &[u8], off: usize) -> (r: u32)
    requires
        off + 2 <= input.len(),
    ensures
        r == spec_read_u16(input@, off as int),
{
    (input[off] as u32) + 256 * (input[off + 1] as u32)
}

/// Reads the 32-bit little-endian value at `off`.
fn read_u32(input: &[u8], off: usize) -> (r: u32)
    requires
        off + 4 <= input.len(),
    ensures
        r == spec_read_u32(input@, off as int),
{
    (input[off] as u32) + 256 * (input[off + 1] as u32) + 65536 * (input[off + 2] as u32)
        + 16777216 * (input[off + 3] as u32)
}

impl Elf {
    /// Loads a 32-bit little-endian RISC-V executable, agreeing with
    /// [`spec_elf_load`] on every input.
    #[verifier::loop_isolation(false)]
    pub fn load(input: &[u8]) -> (r: Result<Elf, ElfError>)
        ensures
            match r {
                Ok(elf) => spec_elf_load(input@) matches Ok(t) && elf.entry_point == t.0
                    && elf.image@ == t.1,
                Err(e) => spec_elf_load(input@) == Err::<(u32, Map<u32, u32>), ElfError>(e),
            },
    {
        if input.len() < 52 {
            return Err(ElfError::Parse);
        }
        if !(input[0] == 0x7f && input[1] == 0x45 && input[2] == 0x4c && input[3] == 0x46) {
            return Err(ElfError::Parse);
        }
        if input[4] != 1 {
            return Err(ElfError::Not32Bit);
        }
        if input[5] != 1 {
            return Err(ElfError::Parse);
        }
        if read_u16(input, 18) != EM_RISCV {
            return Err(ElfError::NotRiscV);
        }
        if read_u16(input, 16) != ET_EXEC {
            return Err(ElfError::NotExecutable);
        }
        let entry_point = read_u32(input, 24);
        if entry_point % WORD_SIZE != 0 {
            return Err(ElfError::InvalidEntryPoint);
        }
        let phoff = read_u32(input, 28);
        let phnum = read_u16(input, 44);
        if phoff == 0 || phnum == 0 {
            return Err(ElfError::NoSegments);
        }
        if phnum > MAX_SEGMENTS {
            return Err(ElfError::TooManySegments);
        }
        if read_u16(input, 42) != 32 {
            return Err(ElfError::Parse);
        }
        if (phoff as u64) + 32 * (phnum as u64) > input.len() as u64 {
            return Err(ElfError::Parse);
        }
        let mut image: BTreeMap<u32, u32> = BTreeMap::new();
        let mut seg: u32 = 0;
        while seg < phnum
            invariant
                spec_load_segments(input@, Map::empty(), seg as nat) == Ok::<
                    Map<u32, u32>,
                    ElfError,
                >(image@),
                seg <= phnum,
            decreases phnum - seg,
        {
            let ph: u64 = (phoff as u64) + 32 * (seg as u64);
            let ptype = read_u32(input, ph as usize);
            if ptype == PT_LOAD {
                let offset = read_u32(input, (ph + 4) as usize);
                let vaddr = read_u32(input, (ph + 8) as usize);
                let file_size = read_u32(input, (ph + 16) as usize);
                let mem_size = read_u32(input, (ph + 20) as usize);
                if vaddr % WORD_SIZE != 0 {
                    proof {
                        lemma_load_segments_err_persists(
                            input@,
                            Map::empty(),
                            (seg + 1) as nat,
                            phnum as nat,
                        );
                    }
                    return Err(ElfError::UnalignedVAddr);
                }
                let ghost img0 = image@;
                let mut i: u64 = 0;
                let ghost mut k: nat = 0;
                while i < mem_size as u64
                    invariant
                        i == 4 * k,
                        i <= mem_size + 3,
                        spec_segment_words(input@, img0, offset, vaddr, file_size, k) == Ok::<
                            Map<u32, u32>,
                            ElfError,
                        >(image@),
                    decreases mem_size as int + 3 - i as int,
                {
                    let addr64 = (vaddr as u64) + i;
                    if addr64 > 0xFFFFFFFF {
                        proof {
                            lemma_segment_words_err_persists(
                                input@,
                                img0,
                                offset,
                                vaddr,
                                file_size,
                                k + 1,
                                spec_num_words(mem_size),
                            );
                            lemma_load_segments_err_persists(
                                input@,
                                Map::empty(),
                                (seg + 1) as nat,
                                phnum as nat,
                            );
                        }
                        return Err(ElfError::AddrTooLarge);
                    }
                    let addr = addr64 as u32;
                    if i >= file_size as u64 {
                        image.insert(addr, 0);
                    } else {
                        let fs_rem = (file_size as u64) - i;
                        let count: u64 = if fs_rem < 4 {
                            fs_rem
                        } else {
                            4
                        };
                        if (offset as u64) + i + count > input.len() as u64 {
                            proof {
                                lemma_segment_words_err_persists(
                                    input@,
                                    img0,
                                    offset,
                                    vaddr,
                                    file_size,
                                    k + 1,
                                    spec_num_words(mem_size),
                                );
                                lemma_load_segments_err_persists(
                                    input@,
                                    Map::empty(),
                                    (seg + 1) as nat,
                                    phnum as nat,
                                );
                            }
                            return Err(ElfError::InvalidOffset);
                        }
                        let base_off = (offset as u64) + i;
                        let mut word: u32 = input[base_off as usize] as u32;
                        if count >= 2 {
                            word = word + 256 * (input[(base_off + 1) as usize] as u32);
                        }
                        if count >= 3 {
                            word = word + 65536 * (input[(base_off + 2) as usize] as u32);
                        }
                        if count >= 4 {
                            word = word + 16777216 * (input[(base_off + 3) as usize] as u32);
                        }
                        image.insert(addr, word);
                    }
                    i = i + 4;
                    proof {
                        k = k + 1;
                    }
                }
                proof {
                    assert(k == spec_num_words(mem_size));
                }
            }
            seg = seg + 1;
        }
        Ok(Elf { entry_point, image })
    }
}

} // verus!
