use vstd::prelude::*;

verus! {

/// Why an instruction could not be built.
#[derive(Debug, Copy, Clone, PartialEq, Eq, Structural)]
pub enum CustomError {
    OutOfTimeRange,
    ConditionNotSet,
    TooEarly,
    TooLate,
    CountExhausted,
    InvalidConfiguration,
    InvalidAccountCount,
    InvalidSignerCount,
    SignerCountGreaterThanAccountCount,
    InvalidSignerSeeds,
    InvalidCommitCondition,
    InvalidInstructionDataLength,
    InvalidCommitConditionTag,
    InvalidAccountKeysCount,
    InvalidAccountIndex,
    StarterKeyNotProvided,
    ArithmeticError,
    InvalidData,
}

} // verus!
