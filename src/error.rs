use vstd::prelude::*;

verus! {

/// Program-specific failure kinds, reported to callers as numeric codes from 101 on.
#[derive(Debug, Clone, Copy, PartialEq, Eq, Structural)]
pub enum CustomError {
    InvalidPDAKey,
    ZeroAmount,
    CliffOverDuration,
    StartCliffOverflow,
    WriteToPDAForbidden,
}

impl CustomError {
    /// The numeric code under which the error is reported.
    pub open spec fn spec_code(self) -> u32 {
        match self {
            CustomError::InvalidPDAKey => 101,
            CustomError::ZeroAmount => 102,
            CustomError::CliffOverDuration => 103,
            CustomError::StartCliffOverflow => 104,
            CustomError::WriteToPDAForbidden => 105,
        }
    }

    pub fn code(&self) -> (r: u32)
        ensures
            r == self.spec_code(),
    {
        match self {
            CustomError::InvalidPDAKey => 101,
            CustomError::ZeroAmount => 102,
            CustomError::CliffOverDuration => 103,
            CustomError::StartCliffOverflow => 104,
            CustomError::WriteToPDAForbidden => 105,
        }
    }
}

impl From<CustomError> for u32 {
    fn from(error: CustomError) -> (r: u32) {
        error.code()
    }
}

impl vstd::std_specs::convert::FromSpecImpl<CustomError> for u32 {
    open spec fn obeys_from_spec() -> bool {
        true
    }

    open spec fn from_spec(error: CustomError) -> u32 {
        error.spec_code()
    }
}

/// Every way an instruction can be rejected.
#[derive(Debug, Clone, Copy, PartialEq, Eq, Structural)]
pub enum VestingError {
    /// A failure specific to this program.
    Custom(CustomError),
    /// The instruction bytes do not decode to an instruction.
    InvalidInstructionData,
    /// Fewer accounts were supplied than the instruction needs.
    NotEnoughAccountKeys,
    /// A signer required by the instruction did not sign.
    MissingRequiredSignature,
    /// An account to be created already exists.
    AccountAlreadyInitialized,
    /// The storage of an account does not have the size that its schema needs.
    AccountDataTooSmall,
    /// A transfer asked for more than the source account holds.
    InsufficientFunds,
}

} // verus!
