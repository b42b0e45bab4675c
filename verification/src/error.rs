use solana_program::program_error::ProgramError;
use vstd::prelude::*;

verus! {

/// The host runtime's error value. Nothing in this library looks inside one:
/// it is only carried from the ledger service to the caller.
#[verifier::external_type_specification]
#[verifier::external_body]
pub struct ExProgramError(ProgramError);

/// Why a request was refused, without the ledger service's own report.
#[derive(Clone, Copy, Debug, PartialEq, Eq, Structural)]
pub enum ErrorKind {
    MalformedInput,
    MissingAccount,
    MalformedAccountData,
    Unauthorized,
    InsufficientFunds,
    LedgerServiceError,
}

/// Why a request was refused.
#[derive(Debug)]
pub enum TransferError {
    /// The instruction bytes are not exactly one little-endian `u64`.
    MalformedInput,
    /// Fewer than five accounts were supplied.
    MissingAccount,
    /// The source or the mint record is not in the ledger's format.
    MalformedAccountData,
    /// The supplied authority is not the one derived from the program.
    Unauthorized,
    /// The source balance is below the requested amount.
    InsufficientFunds,
    /// What the ledger service reported, unchanged.
    LedgerServiceError(ProgramError),
}

impl TransferError {
    pub open spec fn spec_kind(&self) -> ErrorKind {
        match self {
            TransferError::MalformedInput => ErrorKind::MalformedInput,
            TransferError::MissingAccount => ErrorKind::MissingAccount,
            TransferError::MalformedAccountData => ErrorKind::MalformedAccountData,
            TransferError::Unauthorized => ErrorKind::Unauthorized,
            TransferError::InsufficientFunds => ErrorKind::InsufficientFunds,
            TransferError::LedgerServiceError(_) => ErrorKind::LedgerServiceError,
        }
    }

    #[verifier::when_used_as_spec(spec_kind)]
    pub fn kind(&self) -> (k: ErrorKind)
        ensures
            k == self.spec_kind(),
    {
        match self {
            TransferError::MalformedInput => ErrorKind::MalformedInput,
            TransferError::MissingAccount => ErrorKind::MissingAccount,
            TransferError::MalformedAccountData => ErrorKind::MalformedAccountData,
            TransferError::Unauthorized => ErrorKind::Unauthorized,
            TransferError::InsufficientFunds => ErrorKind::InsufficientFunds,
            TransferError::LedgerServiceError(_) => ErrorKind::LedgerServiceError,
        }
    }
}

} // verus!
