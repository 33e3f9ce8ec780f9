//! Errors returned by the order settlement engine.
//!
//! Every rejected attempt reports exactly one of these; no error is retried
//! or swallowed inside the library.

use vstd::prelude::*;

verus! {

/// Reasons an instruction of the settlement engine can fail.
#[derive(Clone, Copy, Debug, PartialEq, Eq, Structural)]
pub enum SolverError {
    /// Unknown opcode byte.
    InvalidInstruction,
    /// Malformed or short instruction payload.
    InvalidInstructionData,
    /// Stored bytes do not have the exact record layout.
    InvalidAccountData,
    /// The record decodes but its lifecycle flag is not set.
    UninitializedAccount,
    /// Commit aimed at storage that is already occupied.
    AlreadyInitialized,
    /// Fewer accounts supplied than the instruction needs.
    NotEnoughAccountKeys,
    /// A required signer did not sign.
    MissingSignature,
    /// The order storage account was not passed as writable.
    OrderAccountMustBeMut,
    /// Target storage is not owned by this protocol's authority.
    IllegalOwner,
    /// A referenced helper program is not the expected one.
    IncorrectProgramId,
    /// The escrow token account is not owned by the order record.
    InvalidTokenAccountOwner,
    /// The escrow token account is for the wrong token.
    InvalidTokenAccountMint,
    /// The supplied storage address does not equal the re-derived commitment
    /// address.
    DerivationMismatch,
    /// The auction schedule is ill-formed (ceiling below floor, or deadline
    /// not after start).
    InvalidAuctionWindow,
    /// The supplied account set does not match the accounts named in the
    /// record.
    AccountMismatch,
    /// No committed record exists at the target storage (never committed, or
    /// already executed or cancelled).
    RecordNotFound,
    /// Cancel attempted by someone other than the record's owner.
    Unauthorized,
    /// Settlement delivered less than the currently required buy amount.
    SlippageExceeded,
    /// The escrowed balance no longer covers the committed sell amount.
    InsufficientEscrow,
}

impl SolverError {
    /// The stable numeric code of each error.
    pub open spec fn code_spec(self) -> u32 {
        match self {
            SolverError::InvalidInstruction => 0,
            SolverError::InvalidInstructionData => 1,
            SolverError::InvalidAccountData => 2,
            SolverError::UninitializedAccount => 3,
            SolverError::AlreadyInitialized => 4,
            SolverError::NotEnoughAccountKeys => 5,
            SolverError::MissingSignature => 6,
            SolverError::OrderAccountMustBeMut => 7,
            SolverError::IllegalOwner => 8,
            SolverError::IncorrectProgramId => 9,
            SolverError::InvalidTokenAccountOwner => 10,
            SolverError::InvalidTokenAccountMint => 11,
            SolverError::DerivationMismatch => 12,
            SolverError::InvalidAuctionWindow => 13,
            SolverError::AccountMismatch => 14,
            SolverError::RecordNotFound => 15,
            SolverError::Unauthorized => 16,
            SolverError::SlippageExceeded => 17,
            SolverError::InsufficientEscrow => 18,
        }
    }

    /// The error that a numeric code denotes, if any.
    pub open spec fn from_code_spec(value: u32) -> Option<SolverError> {
        if value == 0 {
            Some(SolverError::InvalidInstruction)
        } else if value == 1 {
            Some(SolverError::InvalidInstructionData)
        } else if value == 2 {
            Some(SolverError::InvalidAccountData)
        } else if value == 3 {
            Some(SolverError::UninitializedAccount)
        } else if value == 4 {
            Some(SolverError::AlreadyInitialized)
        } else if value == 5 {
            Some(SolverError::NotEnoughAccountKeys)
        } else if value == 6 {
            Some(SolverError::MissingSignature)
        } else if value == 7 {
            Some(SolverError::OrderAccountMustBeMut)
        } else if value == 8 {
            Some(SolverError::IllegalOwner)
        } else if value == 9 {
            Some(SolverError::IncorrectProgramId)
        } else if value == 10 {
            Some(SolverError::InvalidTokenAccountOwner)
        } else if value == 11 {
            Some(SolverError::InvalidTokenAccountMint)
        } else if value == 12 {
            Some(SolverError::DerivationMismatch)
        } else if value == 13 {
            Some(SolverError::InvalidAuctionWindow)
        } else if value == 14 {
            Some(SolverError::AccountMismatch)
        } else if value == 15 {
            Some(SolverError::RecordNotFound)
        } else if value == 16 {
            Some(SolverError::Unauthorized)
        } else if value == 17 {
            Some(SolverError::SlippageExceeded)
        } else if value == 18 {
            Some(SolverError::InsufficientEscrow)
        } else {
            None
        }
    }

    /// The numeric code under which this error is reported to the caller.
    pub fn code(&self) -> (c: u32)
        ensures
            c == self.code_spec(),
    {
        match self {
            SolverError::InvalidInstruction => 0,
            SolverError::InvalidInstructionData => 1,
            SolverError::InvalidAccountData => 2,
            SolverError::UninitializedAccount => 3,
            SolverError::AlreadyInitialized => 4,
            SolverError::NotEnoughAccountKeys => 5,
            SolverError::MissingSignature => 6,
            SolverError::OrderAccountMustBeMut => 7,
            SolverError::IllegalOwner => 8,
            SolverError::IncorrectProgramId => 9,
            SolverError::InvalidTokenAccountOwner => 10,
            SolverError::InvalidTokenAccountMint => 11,
            SolverError::DerivationMismatch => 12,
            SolverError::InvalidAuctionWindow => 13,
            SolverError::AccountMismatch => 14,
            SolverError::RecordNotFound => 15,
            SolverError::Unauthorized => 16,
            SolverError::SlippageExceeded => 17,
            SolverError::InsufficientEscrow => 18,
        }
    }

    /// Parses a numeric code back into the error it denotes.
    pub fn try_from(value: u32) -> (r: Option<SolverError>)
        ensures
            r == Self::from_code_spec(value),
    {
        if value == 0 {
            Some(SolverError::InvalidInstruction)
        } else if value == 1 {
            Some(SolverError::InvalidInstructionData)
        } else if value == 2 {
            Some(SolverError::InvalidAccountData)
        } else if value == 3 {
            Some(SolverError::UninitializedAccount)
        } else if value == 4 {
            Some(SolverError::AlreadyInitialized)
        } else if value == 5 {
            Some(SolverError::NotEnoughAccountKeys)
        } else if value == 6 {
            Some(SolverError::MissingSignature)
        } else if value == 7 {
            Some(SolverError::OrderAccountMustBeMut)
        } else if value == 8 {
            Some(SolverError::IllegalOwner)
        } else if value == 9 {
            Some(SolverError::IncorrectProgramId)
        } else if value == 10 {
            Some(SolverError::InvalidTokenAccountOwner)
        } else if value == 11 {
            Some(SolverError::InvalidTokenAccountMint)
        } else if value == 12 {
            Some(SolverError::DerivationMismatch)
        } else if value == 13 {
            Some(SolverError::InvalidAuctionWindow)
        } else if value == 14 {
            Some(SolverError::AccountMismatch)
        } else if value == 15 {
            Some(SolverError::RecordNotFound)
        } else if value == 16 {
            Some(SolverError::Unauthorized)
        } else if value == 17 {
            Some(SolverError::SlippageExceeded)
        } else if value == 18 {
            Some(SolverError::InsufficientEscrow)
        } else {
            None
        }
    }

    /// A short human-readable description of the error.
    pub fn to_str(&self) -> &'static str {
        match self {
            SolverError::InvalidInstruction => "Invalid instruction",
            SolverError::InvalidInstructionData => "Invalid instruction data",
            SolverError::InvalidAccountData => "Invalid account data",
            SolverError::UninitializedAccount => "Order record is not initialized",
            SolverError::AlreadyInitialized => "Order storage is already initialized",
            SolverError::NotEnoughAccountKeys => "Not enough accounts supplied",
            SolverError::MissingSignature => "Missing required signature",
            SolverError::OrderAccountMustBeMut => "Order account must be mutable",
            SolverError::IllegalOwner => "Storage is not owned by the protocol",
            SolverError::IncorrectProgramId => "Unexpected helper program",
            SolverError::InvalidTokenAccountOwner => "Invalid token account owner",
            SolverError::InvalidTokenAccountMint => "Invalid token account mint",
            SolverError::DerivationMismatch => "Address does not match the commitment",
            SolverError::InvalidAuctionWindow => "Invalid auction window",
            SolverError::AccountMismatch => "Accounts do not match the order record",
            SolverError::RecordNotFound => "Order record not found",
            SolverError::Unauthorized => "Caller is not the order owner",
            SolverError::SlippageExceeded => "Settlement below the required amount",
            SolverError::InsufficientEscrow => "Escrow no longer covers the sell amount",
        }
    }
}

/// Every error code round-trips: parsing the code of an error yields that
/// same error.
pub proof fn lemma_error_code_round_trip(e: SolverError)
    ensures
        SolverError::from_code_spec(e.code_spec()) == Some(e),
{
}

} // verus!
