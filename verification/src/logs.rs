//! The execution log.

use vstd::prelude::*;

use crate::instructions::Instruction;

verus! {

/// Log entry: the executed instruction and the value that the step handed to
/// the register writeback, whether or not a register actually changed.
///
/// Writes to register 0 are still logged but do not mutate state.
#[derive(Clone, Copy, Debug, PartialEq, Eq, Structural)]
pub struct Log {
    pub instruction: Instruction,
    pub updated_register_value: u32,
}

} // verus!
