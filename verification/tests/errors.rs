use registry::error::{Error, ErrorCode};
use registry::realizor::ErrorCode as RealizorError;

#[test]
fn error_codes_count_from_first_variant() {
    assert_eq!(ErrorCode::RewardQAlreadyInitialized.code(), 0);
    assert_eq!(ErrorCode::InvalidNonce.code(), 1);
    assert_eq!(ErrorCode::UnstakeTimelock.code(), 9);
    assert_eq!(ErrorCode::RewardsNeedsProcessing.code(), 16);
    assert_eq!(ErrorCode::InvalidProgramAuthority.code(), 24);
    assert_eq!(ErrorCode::InvalidMint.code(), 25);
}

#[test]
fn error_messages() {
    assert_eq!(ErrorCode::InvalidPoolMintAuthority.message(), "Invalid pool mint authority");
    assert_eq!(ErrorCode::UnstakeTimelock.message(), "The unstake timelock has not yet expired.");
    assert_eq!(
        ErrorCode::InsufficientReward.message(),
        "Reward vendors must have at least one token unit per pool token"
    );
    assert_eq!(ErrorCode::Unknown.message(), "An unknown error has occured.");
    assert_eq!(ErrorCode::InvalidMint.message(), "Invalid mint supplied");
}

#[test]
fn error_code_into_error() {
    assert_eq!(ErrorCode::VendorExpired.into_error(), Error::ErrorCode(ErrorCode::VendorExpired));
}

#[test]
fn realizor_error_codes_and_messages() {
    assert_eq!(RealizorError::UnrealizedReward.code(), 0);
    assert_eq!(RealizorError::InvalidRealizorMetadata.code(), 1);
    assert_eq!(
        RealizorError::UnrealizedReward.message(),
        "Locked rewards cannot be realized until one unstaked all tokens."
    );
    assert_eq!(
        RealizorError::InvalidRealizorMetadata.message(),
        "The given member account does not match the realizor metadata."
    );
}
