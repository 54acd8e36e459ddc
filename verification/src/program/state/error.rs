use vstd::prelude::*;
use vstd::std_specs::convert::FromSpecImpl;

verus! {

/// Failures specific to this program; each travels as a numeric code.
#[derive(Debug, Copy, Clone, PartialEq, Eq, Structural)]
pub enum WrapperError {
    OutOfTimeRange,
    ConditionNotSet,
    TooEarly,
    TooLate,
    CountExhausted,
    InvalidConfiguration,
    InvalidAccountCount,
    InvalidSignerCount,
    SignerCountGreaterThanAccountCount,
    InvalidSignerSeeds,
    InvalidCommitCondition,
    InvalidInstructionDataLength,
    InvalidCommitConditionTag,
    InvalidAccountKeysCount,
    InvalidDataCommitType,
}

impl WrapperError {
    /// The numeric code of the error: its position in the declaration.
    pub open spec fn spec_code(self) -> u32 {
        match self {
            WrapperError::OutOfTimeRange => 0,
            WrapperError::ConditionNotSet => 1,
            WrapperError::TooEarly => 2,
            WrapperError::TooLate => 3,
            WrapperError::CountExhausted => 4,
            WrapperError::InvalidConfiguration => 5,
            WrapperError::InvalidAccountCount => 6,
            WrapperError::InvalidSignerCount => 7,
            WrapperError::SignerCountGreaterThanAccountCount => 8,
            WrapperError::InvalidSignerSeeds => 9,
            WrapperError::InvalidCommitCondition => 10,
            WrapperError::InvalidInstructionDataLength => 11,
            WrapperError::InvalidCommitConditionTag => 12,
            WrapperError::InvalidAccountKeysCount => 13,
            WrapperError::InvalidDataCommitType => 14,
        }
    }

    #[verifier::when_used_as_spec(spec_code)]
    pub fn code(self) -> (r: u32)
        ensures
            r == self.spec_code(),
    {
        match self {
            WrapperError::OutOfTimeRange => 0,
            WrapperError::ConditionNotSet => 1,
            WrapperError::TooEarly => 2,
            WrapperError::TooLate => 3,
            WrapperError::CountExhausted => 4,
            WrapperError::InvalidConfiguration => 5,
            WrapperError::InvalidAccountCount => 6,
            WrapperError::InvalidSignerCount => 7,
            WrapperError::SignerCountGreaterThanAccountCount => 8,
            WrapperError::InvalidSignerSeeds => 9,
            WrapperError::InvalidCommitCondition => 10,
            WrapperError::InvalidInstructionDataLength => 11,
            WrapperError::InvalidCommitConditionTag => 12,
            WrapperError::InvalidAccountKeysCount => 13,
            WrapperError::InvalidDataCommitType => 14,
        }
    }
}

/// Why an instruction was refused. Every refusal is final for the invocation.
#[derive(Debug, Copy, Clone, PartialEq, Eq, Structural)]
pub enum ProgramError {
    /// A program-specific failure, by its code.
    Custom(u32),
    InvalidArgument,
    InvalidInstructionData,
    InvalidAccountData,
    IncorrectProgramId,
    MissingRequiredSignature,
    UninitializedAccount,
    NotEnoughAccountKeys,
    MaxSeedLengthExceeded,
    InvalidSeeds,
    IllegalOwner,
    ArithmeticOverflow,
}

/// The outcome of a handler that returns nothing on success.
pub type ProgramResult = Result<(), ProgramError>;

impl From<WrapperError> for ProgramError {
    fn from(error: WrapperError) -> (r: ProgramError) {
        ProgramError::Custom(error.code())
    }
}

impl FromSpecImpl<WrapperError> for ProgramError {
    open spec fn obeys_from_spec() -> bool {
        true
    }

    open spec fn from_spec(error: WrapperError) -> ProgramError {
        ProgramError::Custom(error.spec_code())
    }
}

/// The refusal that carries `error`.
pub open spec fn custom(error: WrapperError) -> ProgramError {
    ProgramError::Custom(error.spec_code())
}

} // verus!
