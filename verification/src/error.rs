//! The reasons for which a step is refused.

use vstd::prelude::*;

verus! {

/// Why a transition was refused. A refused step asks nothing of the ledger.
#[derive(Clone, Copy, Debug, PartialEq, Eq, Structural)]
pub enum EscrowError {
    /// The account list is shorter than the transition needs.
    NotEnoughAccountKeys,
    /// The maker (Initialize) or the taker (Exchange) did not sign.
    MissingRequiredSignature,
    /// The rent oracle could not be read.
    InvalidArgument,
    /// The escrow storage account holds less than the rent-exempt minimum.
    NotRentExempt,
    /// The supplied escrow address is not the one derived for the maker and the asset.
    InvalidSeeds,
    /// The escrow storage slot already holds an open record.
    AccountAlreadyInitialized,
    /// A token account or a mint was never initialized.
    UninitializedAccount,
    /// Account data is malformed, or does not match the record.
    InvalidAccountData,
    /// The token service named is not the token program.
    IncorrectProgramId,
    /// An amount differs from the one the escrow holds or asks for.
    ExpectedAmountMismatch,
    /// Returning the reclaimed balance would overflow.
    AmountOverflow,
    /// An instruction payload or a stored record could not be decoded.
    DecodeFailed,
}

/// The classes of refusal.
#[derive(Clone, Copy, Debug, PartialEq, Eq, Structural)]
pub enum ErrorKind {
    Authorization,
    Validation,
    State,
    Resource,
    Decode,
}

impl EscrowError {
    pub open spec fn spec_kind(self) -> ErrorKind {
        match self {
            EscrowError::MissingRequiredSignature => ErrorKind::Authorization,
            EscrowError::NotEnoughAccountKeys => ErrorKind::Validation,
            EscrowError::InvalidArgument => ErrorKind::Validation,
            EscrowError::InvalidSeeds => ErrorKind::Validation,
            EscrowError::InvalidAccountData => ErrorKind::Validation,
            EscrowError::IncorrectProgramId => ErrorKind::Validation,
            EscrowError::ExpectedAmountMismatch => ErrorKind::Validation,
            EscrowError::AccountAlreadyInitialized => ErrorKind::State,
            EscrowError::UninitializedAccount => ErrorKind::State,
            EscrowError::NotRentExempt => ErrorKind::Resource,
            EscrowError::AmountOverflow => ErrorKind::Resource,
            EscrowError::DecodeFailed => ErrorKind::Decode,
        }
    }

    /// The class that the error belongs to.
    #[verifier::when_used_as_spec(spec_kind)]
    pub fn kind(self) -> (k: ErrorKind)
        ensures
            k == self.spec_kind(),
    {
        match self {
            EscrowError::MissingRequiredSignature => ErrorKind::Authorization,
            EscrowError::NotEnoughAccountKeys => ErrorKind::Validation,
            EscrowError::InvalidArgument => ErrorKind::Validation,
            EscrowError::InvalidSeeds => ErrorKind::Validation,
            EscrowError::InvalidAccountData => ErrorKind::Validation,
            EscrowError::IncorrectProgramId => ErrorKind::Validation,
            EscrowError::ExpectedAmountMismatch => ErrorKind::Validation,
            EscrowError::AccountAlreadyInitialized => ErrorKind::State,
            EscrowError::UninitializedAccount => ErrorKind::State,
            EscrowError::NotRentExempt => ErrorKind::Resource,
            EscrowError::AmountOverflow => ErrorKind::Resource,
            EscrowError::DecodeFailed => ErrorKind::Decode,
        }
    }
}

} // verus!
