//! Error kinds surfaced by the vesting program.

use vstd::prelude::*;

verus! {

/// Failure of a fixed-layout decode.
#[derive(Clone, Copy, Debug, PartialEq, Eq, Structural)]
pub enum DecodeError {
    /// Fewer bytes were available than the fixed width requires.
    Truncated,
    /// A decoded byte lies outside its enumerant's range.
    OutOfRange,
}

/// Every way an instruction can be rejected. Each validation failure
/// aborts the whole instruction with no state change.
#[derive(Clone, Copy, Debug, PartialEq, Eq, Structural)]
pub enum ErrorCode {
    InvalidInstruction,
    InvalidTimestamp,
    InvalidPeriod,
    InvalidDepositAmount,
    InvalidProgramAddress,
    InvalidVaultOwner,
    InvalidVaultAmount,
    InsufficientWithdrawalBalance,
    WhitelistFull,
    WhitelistEntryAlreadyExists,
    Unauthorized,
    UnableToWithdrawWhileStaked,
    UnrealizedVesting,
    InvalidSchedule,
    /// A supplied account does not match its derived address.
    InvalidSeeds,
    /// An account is not owned by the expected program.
    IllegalOwner,
    /// The funding balance is below the schedule total.
    InsufficientFunds,
    /// An accumulated release sum exceeds the representable range.
    Overflow,
    /// Unlock found nothing vested yet; safe to retry later.
    NoEligibleRelease,
    /// Create was repeated on an account that already holds a schedule.
    AlreadyInitialized,
}

impl ErrorCode {
    /// The error family, for log prefixes.
    pub fn type_of() -> (r: &'static str)
        ensures
            r@ == "SCY Lockup Error"@,
    {
        "SCY Lockup Error"
    }

    /// A human-readable description of the error.
    pub fn message(&self) -> &'static str {
        match self {
            ErrorCode::InvalidInstruction => "Invalid Instruction",
            ErrorCode::InvalidTimestamp => "Vesting end must be greater than the current unix timestamp.",
            ErrorCode::InvalidPeriod => "The number of vesting periods must be greater than zero.",
            ErrorCode::InvalidDepositAmount => "The vesting deposit amount must be greater than zero.",
            ErrorCode::InvalidProgramAddress => "Invalid program address. Did you provide the correct nonce?",
            ErrorCode::InvalidVaultOwner => "Invalid vault owner.",
            ErrorCode::InvalidVaultAmount => "Vault amount must be zero.",
            ErrorCode::InsufficientWithdrawalBalance => "Insufficient withdrawal balance.",
            ErrorCode::WhitelistFull => "Whitelist is full",
            ErrorCode::WhitelistEntryAlreadyExists => "Whitelist entry already exists",
            ErrorCode::Unauthorized => "You do not have sufficient permissions to perform this action.",
            ErrorCode::UnableToWithdrawWhileStaked => "You are unable to realize projected rewards until unstaking.",
            ErrorCode::UnrealizedVesting => "You have not realized this vesting account.",
            ErrorCode::InvalidSchedule => "Invalid vesting schedule given.",
            ErrorCode::InvalidSeeds => "A supplied account does not match its derived address.",
            ErrorCode::IllegalOwner => "Account is not owned by the expected program.",
            ErrorCode::InsufficientFunds => "Token vault has insufficient funds.",
            ErrorCode::Overflow => "Release quantities exceed the representable total.",
            ErrorCode::NoEligibleRelease => "No vesting periods have elapsed.",
            ErrorCode::AlreadyInitialized => "Vesting contract with this seed already exists.",
        }
    }
}

impl DecodeError {
    /// The instruction-level error a failed state decode surfaces as.
    pub fn to_error_code(&self) -> (r: ErrorCode)
        ensures
            r == ErrorCode::InvalidInstruction,
    {
        ErrorCode::InvalidInstruction
    }
}

} // verus!
