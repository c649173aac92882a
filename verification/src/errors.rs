//! Fatal errors of the virtual machine.

use vstd::prelude::*;

verus! {

/// The ways a fetch-decode-execute step can fail.
///
/// Nothing is retried: an error ends the run and reaches the caller with its
/// discriminant intact.
#[derive(Clone, Copy, Debug, PartialEq, Eq, Structural)]
pub enum VmError {
    /// The fetched word is not a recognized RV32I encoding.
    InvalidInstruction,
    /// A fetch or load read an address the image never mapped.
    UnmappedMemoryRead,
    /// A byte or half-word memory access; only word accesses are implemented.
    UnimplementedWidth,
    /// The executor's step budget of `u64::MAX` steps ran out before the
    /// program halted or failed.
    StepLimitExceeded,
}

} // verus!
