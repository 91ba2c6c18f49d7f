//! Errors of the registry: its own error codes and the framework's account
//! and instruction checks.
use vstd::prelude::*;

verus! {

/// Errors raised by the registry's own rules.
#[derive(Clone, Copy, Debug, PartialEq, Eq, Structural)]
pub enum ErrorCode {
    RewardQAlreadyInitialized,
    InvalidNonce,
    InvalidPoolMintAuthority,
    InvalidMemberSigner,
    InvalidVaultDeposit,
    InvalidDepositor,
    InvalidVault,
    InvalidVaultOwner,
    Unknown,
    UnstakeTimelock,
    InsufficientReward,
    InvalidExpiry,
    VendorExpired,
    CursorAlreadyProcessed,
    NotStakedDuringDrop,
    VendorNotYetExpired,
    RewardsNeedsProcessing,
    ExpectedLockedVendor,
    ExpectedUnlockedVendor,
    InvalidVestingSigner,
    UnrealizedReward,
    InvalidBeneficiary,
    InvalidRealizorMetadata,
    InvalidVestingSchedule,
    InvalidProgramAuthority,
    InvalidMint,
}

impl ErrorCode {
    /// The error number, counted from the first variant.
    pub open spec fn spec_code(self) -> u32 {
        match self {
            ErrorCode::RewardQAlreadyInitialized => 0,
            ErrorCode::InvalidNonce => 1,
            ErrorCode::InvalidPoolMintAuthority => 2,
            ErrorCode::InvalidMemberSigner => 3,
            ErrorCode::InvalidVaultDeposit => 4,
            ErrorCode::InvalidDepositor => 5,
            ErrorCode::InvalidVault => 6,
            ErrorCode::InvalidVaultOwner => 7,
            ErrorCode::Unknown => 8,
            ErrorCode::UnstakeTimelock => 9,
            ErrorCode::InsufficientReward => 10,
            ErrorCode::InvalidExpiry => 11,
            ErrorCode::VendorExpired => 12,
            ErrorCode::CursorAlreadyProcessed => 13,
            ErrorCode::NotStakedDuringDrop => 14,
            ErrorCode::VendorNotYetExpired => 15,
            ErrorCode::RewardsNeedsProcessing => 16,
            ErrorCode::ExpectedLockedVendor => 17,
            ErrorCode::ExpectedUnlockedVendor => 18,
            ErrorCode::InvalidVestingSigner => 19,
            ErrorCode::UnrealizedReward => 20,
            ErrorCode::InvalidBeneficiary => 21,
            ErrorCode::InvalidRealizorMetadata => 22,
            ErrorCode::InvalidVestingSchedule => 23,
            ErrorCode::InvalidProgramAuthority => 24,
            ErrorCode::InvalidMint => 25,
        }
    }

    /// The error number, counted from the first variant.
    pub fn code(&self) -> (c: u32)
        ensures
            c == self.spec_code(),
    {
        match self {
            ErrorCode::RewardQAlreadyInitialized => 0,
            ErrorCode::InvalidNonce => 1,
            ErrorCode::InvalidPoolMintAuthority => 2,
            ErrorCode::InvalidMemberSigner => 3,
            ErrorCode::InvalidVaultDeposit => 4,
            ErrorCode::InvalidDepositor => 5,
            ErrorCode::InvalidVault => 6,
            ErrorCode::InvalidVaultOwner => 7,
            ErrorCode::Unknown => 8,
            ErrorCode::UnstakeTimelock => 9,
            ErrorCode::InsufficientReward => 10,
            ErrorCode::InvalidExpiry => 11,
            ErrorCode::VendorExpired => 12,
            ErrorCode::CursorAlreadyProcessed => 13,
            ErrorCode::NotStakedDuringDrop => 14,
            ErrorCode::VendorNotYetExpired => 15,
            ErrorCode::RewardsNeedsProcessing => 16,
            ErrorCode::ExpectedLockedVendor => 17,
            ErrorCode::ExpectedUnlockedVendor => 18,
            ErrorCode::InvalidVestingSigner => 19,
            ErrorCode::UnrealizedReward => 20,
            ErrorCode::InvalidBeneficiary => 21,
            ErrorCode::InvalidRealizorMetadata => 22,
            ErrorCode::InvalidVestingSchedule => 23,
            ErrorCode::InvalidProgramAuthority => 24,
            ErrorCode::InvalidMint => 25,
        }
    }

    /// The message shown for the error.
    pub open spec fn spec_message(self) -> Seq<char> {
        match self {
            ErrorCode::RewardQAlreadyInitialized => "The given reward queue has already been initialized."@,
            ErrorCode::InvalidNonce => "The nonce given doesn't derive a valid program address."@,
            ErrorCode::InvalidPoolMintAuthority => "Invalid pool mint authority"@,
            ErrorCode::InvalidMemberSigner => "Member signer doesn't match the derived address."@,
            ErrorCode::InvalidVaultDeposit => "The given vault owner must match the signing depositor."@,
            ErrorCode::InvalidDepositor => "The signing depositor doesn't match either of the balance accounts"@,
            ErrorCode::InvalidVault => "The vault given does not match the vault expected."@,
            ErrorCode::InvalidVaultOwner => "Invalid vault owner."@,
            ErrorCode::Unknown => "An unknown error has occured."@,
            ErrorCode::UnstakeTimelock => "The unstake timelock has not yet expired."@,
            ErrorCode::InsufficientReward => "Reward vendors must have at least one token unit per pool token"@,
            ErrorCode::InvalidExpiry => "Reward expiry must be after the current clock timestamp."@,
            ErrorCode::VendorExpired => "The reward vendor has been expired."@,
            ErrorCode::CursorAlreadyProcessed => "This reward has already been processed."@,
            ErrorCode::NotStakedDuringDrop => "The account was not staked at the time of this reward."@,
            ErrorCode::VendorNotYetExpired => "The vendor is not yet eligible for expiry."@,
            ErrorCode::RewardsNeedsProcessing => "Please collect your reward before otherwise using the program."@,
            ErrorCode::ExpectedLockedVendor => "Locked reward vendor expected but an unlocked vendor was given."@,
            ErrorCode::ExpectedUnlockedVendor => "Unlocked reward vendor expected but a locked vendor was given."@,
            ErrorCode::InvalidVestingSigner => "Locked deposit from an invalid deposit authority."@,
            ErrorCode::UnrealizedReward => "Locked rewards cannot be realized until one unstaked all tokens."@,
            ErrorCode::InvalidBeneficiary => "The beneficiary doesn't match."@,
            ErrorCode::InvalidRealizorMetadata => "The given member account does not match the realizor metadata."@,
            ErrorCode::InvalidVestingSchedule => "Invalid vesting schedule for the locked reward."@,
            ErrorCode::InvalidProgramAuthority => "Please specify the correct authority for this program."@,
            ErrorCode::InvalidMint => "Invalid mint supplied"@,
        }
    }

    /// The message shown for the error.
    pub fn message(&self) -> (s: &'static str)
        ensures
            s@ == self.spec_message(),
    {
        match self {
            ErrorCode::RewardQAlreadyInitialized => "The given reward queue has already been initialized.",
            ErrorCode::InvalidNonce => "The nonce given doesn't derive a valid program address.",
            ErrorCode::InvalidPoolMintAuthority => "Invalid pool mint authority",
            ErrorCode::InvalidMemberSigner => "Member signer doesn't match the derived address.",
            ErrorCode::InvalidVaultDeposit => "The given vault owner must match the signing depositor.",
            ErrorCode::InvalidDepositor => "The signing depositor doesn't match either of the balance accounts",
            ErrorCode::InvalidVault => "The vault given does not match the vault expected.",
            ErrorCode::InvalidVaultOwner => "Invalid vault owner.",
            ErrorCode::Unknown => "An unknown error has occured.",
            ErrorCode::UnstakeTimelock => "The unstake timelock has not yet expired.",
            ErrorCode::InsufficientReward => "Reward vendors must have at least one token unit per pool token",
            ErrorCode::InvalidExpiry => "Reward expiry must be after the current clock timestamp.",
            ErrorCode::VendorExpired => "The reward vendor has been expired.",
            ErrorCode::CursorAlreadyProcessed => "This reward has already been processed.",
            ErrorCode::NotStakedDuringDrop => "The account was not staked at the time of this reward.",
            ErrorCode::VendorNotYetExpired => "The vendor is not yet eligible for expiry.",
            ErrorCode::RewardsNeedsProcessing => "Please collect your reward before otherwise using the program.",
            ErrorCode::ExpectedLockedVendor => "Locked reward vendor expected but an unlocked vendor was given.",
            ErrorCode::ExpectedUnlockedVendor => "Unlocked reward vendor expected but a locked vendor was given.",
            ErrorCode::InvalidVestingSigner => "Locked deposit from an invalid deposit authority.",
            ErrorCode::UnrealizedReward => "Locked rewards cannot be realized until one unstaked all tokens.",
            ErrorCode::InvalidBeneficiary => "The beneficiary doesn't match.",
            ErrorCode::InvalidRealizorMetadata => "The given member account does not match the realizor metadata.",
            ErrorCode::InvalidVestingSchedule => "Invalid vesting schedule for the locked reward.",
            ErrorCode::InvalidProgramAuthority => "Please specify the correct authority for this program.",
            ErrorCode::InvalidMint => "Invalid mint supplied",
        }
    }
}

/// Failures of the framework's checks on instruction data and accounts.
#[derive(Clone, Copy, Debug, PartialEq, Eq, Structural)]
pub enum FrameworkError {
    /// The instruction data is shorter than the 8-byte method identifier.
    InstructionMissing,
    /// No method has the given identifier.
    InstructionFallbackNotFound,
    /// The instruction arguments do not decode.
    InstructionDidNotDeserialize,
    /// Account data is shorter than its 8-byte discriminator.
    AccountDiscriminatorNotFound,
    /// Account data carries the discriminator of another account type.
    AccountDiscriminatorMismatch,
    /// Account data does not decode as its type.
    AccountDidNotDeserialize,
    /// An account that must be writable is not.
    ConstraintMut,
    /// A field of an account does not hold the key of the related account.
    ConstraintHasOne,
    /// An account that must sign did not.
    ConstraintSigner,
    /// A boolean constraint written on an account does not hold; the framework
    /// reports it with its error named `Deprecated`.
    Deprecated,
    /// An account is not the program address derived from its seeds.
    ConstraintSeeds,
    /// An account that must be fresh already carries a discriminator.
    ConstraintZero,
    /// An account does not hold enough lamports to be rent exempt.
    ConstraintRentExempt,
    /// An account is owned by another program than the one whose data it
    /// must hold.
    AccountOwnedByWrongProgram,
}

/// Any error of an instruction.
#[derive(Clone, Copy, Debug, PartialEq, Eq, Structural)]
pub enum Error {
    ProgramError(FrameworkError),
    ErrorCode(ErrorCode),
}

impl ErrorCode {
    /// The error as an instruction error.
    pub fn into_error(self) -> (e: Error)
        ensures
            e == Error::ErrorCode(self),
    {
        Error::ErrorCode(self)
    }
}

} // verus!
