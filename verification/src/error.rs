//! The router's error taxonomy. Every failed operation surfaces exactly one of
//! these; there is no retry and no local recovery anywhere in the core.

use vstd::prelude::*;
use solana_program::program_error::ProgramError;

verus! {

/// Errors that a swap operation can surface to its caller.
#[derive(Debug, PartialEq)]
pub enum SwapError {
    /// The wire buffer is malformed: bad tag, a payload that is not a whole
    /// number of amounts, or a declared hop count that disagrees with the
    /// payload size.
    InvalidInstruction,
    /// The resource list is shorter than the hop count demands.
    MissingResource,
    /// A resource handle does not decode as a token account.
    ExpectedAccount,
    /// A resource handle is owned by the wrong service.
    IncorrectOwner,
    /// Authority derivation failed: the inputs map to no valid identity.
    InvalidProgramAddress,
    /// All hops succeeded but the aggregate output stayed below the caller's
    /// floor.
    ExceededSlippage,
    /// The destination balance decreased over the hop chain, so the output
    /// delta is not a meaningful unsigned quantity.
    BalanceInvariantViolated,
    /// The external exchange engine failed a delegated call; its error is
    /// carried through unmodified.
    Engine(ProgramError),
}

} // verus!
