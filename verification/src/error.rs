use vstd::prelude::*;

verus! {

/// Why a record could not be read from, or written into, a byte buffer.
#[derive(Clone, Copy, Debug, PartialEq, Eq, Structural)]
pub enum BorshError {
    /// The buffer ended before the record did.
    UnexpectedLength,
    /// The record ended before the buffer did.
    NotAllBytesRead,
    /// An enum tag byte that names no variant.
    UnexpectedVariantTag(u8),
    /// The destination buffer is too short for the record.
    WriteZero,
}

/// The errors with which an instruction is refused.
#[derive(Clone, Copy, Debug, PartialEq, Eq, Structural)]
pub enum DaoError {
    /// The instruction was given a number of accounts other than the one it takes.
    NotEnoughAccountKeys,
    /// An account that must sign did not.
    MissingRequiredSignature,
    /// An account is not writable, not the expected address, or holds the wrong record.
    InvalidAccountData,
    /// The system program account is not the system program.
    IncorrectProgramId,
    /// The treasury cannot pay the requested amount.
    InsufficientFunds,
    /// No program-derived address exists for the seeds.
    InvalidSeeds,
    /// A record could not be read or written.
    BorshIoError(BorshError),
}

} // verus!
