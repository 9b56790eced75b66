//! The closed error enumerations of the three protocols. Every failure is
//! terminal for the enclosing transaction; an error value names the first
//! check that failed.

use vstd::prelude::*;

verus! {

/// Errors of the host program interface, as the runtime reports them to the
/// caller of an aborted transaction.
#[derive(Clone, Copy, Debug, PartialEq, Eq, Structural)]
pub enum ProgramError {
    MissingRequiredSignature,
    InvalidAccountOwner,
    InvalidAccountData,
    InvalidInstructionData,
    InvalidArgument,
    NotEnoughAccountKeys,
    InvalidSeeds,
    Custom(u32),
}

/// Escrow-protocol error codes, carried to the caller as custom codes.
#[derive(Clone, Copy, Debug, PartialEq, Eq, Structural)]
pub enum PinocchioError {
    InvalidInstruction,
    InvalidOwner,
    UninitializedAccount,
    InvalidAccountData,
    MintCheckFailed,
    AtaCheckFailed,
    InvalidPda,
    InvalidAddress,
}

impl PinocchioError {
    /// The custom error code of each variant.
    pub open spec fn spec_code(self) -> u32 {
        match self {
            PinocchioError::InvalidInstruction => 0,
            PinocchioError::InvalidOwner => 1,
            PinocchioError::UninitializedAccount => 2,
            PinocchioError::InvalidAccountData => 3,
            PinocchioError::MintCheckFailed => 4,
            PinocchioError::AtaCheckFailed => 5,
            PinocchioError::InvalidPda => 6,
            PinocchioError::InvalidAddress => 7,
        }
    }

    /// Returns the custom error code of this variant.
    pub fn code(self) -> (r: u32)
        ensures
            r == self.spec_code(),
    {
        match self {
            PinocchioError::InvalidInstruction => 0,
            PinocchioError::InvalidOwner => 1,
            PinocchioError::UninitializedAccount => 2,
            PinocchioError::InvalidAccountData => 3,
            PinocchioError::MintCheckFailed => 4,
            PinocchioError::AtaCheckFailed => 5,
            PinocchioError::InvalidPda => 6,
            PinocchioError::InvalidAddress => 7,
        }
    }
}

impl From<PinocchioError> for ProgramError {
    /// An escrow error surfaces as the custom program error with its code.
    fn from(e: PinocchioError) -> (r: ProgramError) {
        ProgramError::Custom(e.code())
    }
}

impl vstd::std_specs::convert::FromSpecImpl<PinocchioError> for ProgramError {
    open spec fn obeys_from_spec() -> bool {
        true
    }

    open spec fn from_spec(e: PinocchioError) -> ProgramError {
        ProgramError::Custom(e.spec_code())
    }
}

/// Flash-loan protocol errors.
#[derive(Clone, Copy, Debug, PartialEq, Eq, Structural)]
pub enum ProtocolError {
    InvalidIx,
    InvalidInstructionIndex,
    InvalidAmount,
    NotEnoughFunds,
    ProgramMismatch,
    InvalidProgram,
    InvalidBorrowerAta,
    InvalidProtocolAta,
    MissingRepayIx,
    MissingBorrowIx,
    Overflow,
}

} // verus!
