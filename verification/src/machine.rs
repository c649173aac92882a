//! Machine state: the register file and the word-addressed memory.

use std::collections::BTreeMap;

use vstd::prelude::*;

use crate::errors::VmError;

verus! {

broadcast use vstd::laws_cmp::group_laws_cmp;

/// The register file: 32 words, index 0 hard-wired to zero.
///
/// Writes to index 0 are discarded; reads of it always yield zero once the
/// file is initialized, since nothing ever writes it.
pub struct Registers(pub [u32; 32]);

impl View for Registers {
    type V = Seq<u32>;

    open spec fn view(&self) -> Seq<u32> {
        self.0@
    }
}

impl Registers {
    /// Reads the register at index `i`.
    pub fn read(&self, i: u32) -> (r: u32)
        requires
            i < 32,
        ensures
            r == self@[i as int],
    {
        self.0[i as usize]
    }

    /// Writes the register at index `i`; a no-op when `i` is zero.
    pub fn write(&mut self, i: u32, w: u32)
        requires
            i < 32,
        ensures
            final(self)@ == if i == 0 {
                old(self)@
            } else {
                old(self)@.update(i as int, w)
            },
    {
        if i != 0 {
            self.0[i as usize] = w;
        }
    }
}

impl Default for Registers {
    /// The reset register file: every register zero.
    fn default() -> (r: Registers)
        ensures
            r@.len() == 32,
            forall|i: int| 0 <= i < 32 ==> r@[i] == 0u32,
    {
        Registers([0u32; 32])
    }
}

/// Word-addressed memory: a mapping from 32-bit addresses to 32-bit words.
///
/// Reads of unmapped addresses are a fatal error; writes create or replace
/// entries.
pub struct Memory(pub BTreeMap<u32, u32>);

impl View for Memory {
    type V = Map<u32, u32>;

    open spec fn view(&self) -> Map<u32, u32> {
        self.0@
    }
}

impl Memory {
    /// Reads the word at `addr`, failing when the address was never mapped.
    pub fn read(&self, addr: u32) -> (r: Result<u32, VmError>)
        ensures
            match r {
                Ok(w) => self@.contains_key(addr) && w == self@[addr],
                Err(e) => !self@.contains_key(addr) && e == VmError::UnmappedMemoryRead,
            },
    {
        match self.0.get(&addr) {
            Some(w) => Ok(*w),
            None => Err(VmError::UnmappedMemoryRead),
        }
    }

    /// Writes the word at `addr`, creating or replacing the entry.
    pub fn write(&mut self, addr: u32, w: u32)
        ensures
            final(self)@ == old(self)@.insert(addr, w),
    {
        self.0.insert(addr, w);
    }
}

impl Default for Memory {
    /// An empty memory: no address is mapped.
    fn default() -> (r: Memory)
        ensures
            r@ == Map::<u32, u32>::empty(),
    {
        Memory(BTreeMap::new())
    }
}

} // verus!
