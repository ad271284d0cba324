//! Error taxonomy of the instruction processor.
//!
//! `SplStoreError` holds the program's own failure classifications;
//! `ProgramError` is the full result classification a caller receives,
//! covering program errors, access and decoding failures, and failures
//! propagated from the host services (account creation, associated-account
//! provisioning, token transfer).

use vstd::prelude::*;

verus! {

/// The program's own failure classifications.
#[derive(Debug, Clone, Copy, PartialEq, Eq, Structural)]
pub enum SplStoreError {
    /// An account that must be writable was supplied read-only.
    AccountNotWritable,
    /// An account that must have signed the transaction did not.
    AccountNotSigner,
    /// An account signed although it must not have.
    AccountSigner,
    /// A balance (native or token) does not cover the requested trade.
    InsufficientFundsForTransaction,
    /// No initial price was supplied.
    NoInitialPrice,
    /// A price must be strictly positive.
    InvalidPrice,
    /// A supplied associated token account address does not match the
    /// address derived from its wallet and mint.
    InvalidAtaAddress,
    /// No initial funding was supplied.
    NoInitialLamports,
    /// The supplied initial funding is wrong.
    WrongInitialLamports,
    /// A token account's record could not be read to find its mint.
    NoAccountMint,
    /// A token account's recorded mint differs from the supplied mint.
    WrongAccountMint,
    /// The associated token account to provision is not at its derived
    /// address.
    UnexpectedAtaAddress,
    /// The presented identity is not the stored administrator.
    AccountNotAdmin,
}

/// Everything an operation can report: a program error, an access or
/// decoding failure, or a failure of one of the host services.
#[derive(Debug, Clone, Copy, PartialEq, Eq, Structural)]
pub enum ProgramError {
    /// A program-specific failure.
    Custom(SplStoreError),
    /// An account is not owned by the expected program.
    IncorrectProgramId,
    /// A freshly funded account would not be exempt from rent.
    AccountNotRentExempt,
    /// The operation needs more accounts than were supplied.
    NotEnoughAccountKeys,
    /// An account's data does not hold the record the operation expects.
    InvalidAccountData,
    /// The instruction payload matches no operation.
    MalformedInstruction,
    /// The host's account-creation service failed.
    AccountCreationFailed,
    /// The associated-account provisioner failed.
    AtaCreationFailed,
    /// The token-transfer service failed.
    TokenTransferFailed,
}

impl core::convert::From<SplStoreError> for ProgramError {
    fn from(value: SplStoreError) -> (r: ProgramError) {
        ProgramError::Custom(value)
    }
}

impl vstd::std_specs::convert::FromSpecImpl<SplStoreError> for ProgramError {
    open spec fn obeys_from_spec() -> bool {
        true
    }

    open spec fn from_spec(value: SplStoreError) -> ProgramError {
        ProgramError::Custom(value)
    }
}

} // verus!
