//! The failures that the ledger and the instruction processors report.
use vstd::prelude::*;

verus! {

/// A typed failure of a processor or of buffer validation.
#[derive(Clone, Copy, Debug, PartialEq, Eq, Structural)]
pub enum ProgramError {
    /// An argument, such as the account list, does not have the expected shape.
    InvalidArgument,
    /// The instruction bytes name no known instruction.
    InvalidInstructionData,
    /// Fewer accounts were passed than the instruction reads.
    NotEnoughAccountKeys,
    /// The buffer is shorter than its prefix or its declared table.
    AccountDataTooSmall,
    /// The table size overflows the address space.
    ArithmeticOverflow,
    /// The account passed is not the ledger account.
    IncorrectProgramId,
}

/// The outcome of a processor that returns nothing on success.
pub type ProgramResult = Result<(), ProgramError>;

} // verus!
